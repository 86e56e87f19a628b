//! Errors of the reputation registry.

use vstd::prelude::*;
use crate::reputation_registry::decay::DecayError;
use crate::reputation_registry::multisig::MultisigError;

verus! {

/// Why a direct reputation operation was refused.
#[derive(Clone, Copy, Debug, PartialEq, Eq, Structural)]
pub enum ReputationError {
    InvalidOverallScore,
    InvalidComponentScore,
    InvalidReviewRating,
    AgentNotRegistered,
    UnauthorizedUpdate,
    UnauthorizedAuthority,
    PaymentSignatureTooLong,
    ArithmeticOverflow,
    InvalidAuthority,
}

/// Any error of the registry: one of its three families, or a record handed
/// in that does not belong to the operation.
#[derive(Clone, Copy, Debug, PartialEq, Eq, Structural)]
pub enum RegistryError {
    Reputation(ReputationError),
    Decay(DecayError),
    Multisig(MultisigError),
    /// The reputation record is not that of the agent the proposal names.
    AccountMismatch,
}

} // verus!
