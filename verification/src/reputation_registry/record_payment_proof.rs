//! Taking in a payment proof.

use vstd::prelude::*;
use crate::reputation_registry::error::{RegistryError, ReputationError};
use crate::reputation_registry::state::AgentReputation;
use crate::text::{byte_len, stored_len};

verus! {

/// Longest payment signature, in bytes.
pub const MAX_PAYMENT_SIGNATURE_LEN: usize = 88;

/// What taking in a payment proof looks at: the agent's reputation.
#[derive(Clone, Copy, Debug)]
pub struct RecordPaymentProof {
    pub agent_reputation: AgentReputation,
}

/// Checks a payment signature's length. The proof itself is kept by the
/// caller; the reputation does not change.
pub fn handler(ctx: &RecordPaymentProof, payment_signature: String) -> (r: Result<
    (),
    RegistryError,
>)
    ensures
        r is Ok <==> byte_len(payment_signature@) <= MAX_PAYMENT_SIGNATURE_LEN,
        r is Err ==> r == Err::<(), RegistryError>(
            RegistryError::Reputation(ReputationError::PaymentSignatureTooLong),
        ),
{
    if stored_len(&payment_signature) > MAX_PAYMENT_SIGNATURE_LEN {
        return Err(RegistryError::Reputation(ReputationError::PaymentSignatureTooLong));
    }
    Ok(())
}

} // verus!
