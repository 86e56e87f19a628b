//! Errors of the vote registry.

use vstd::prelude::*;

verus! {

/// Why a vote, rating, endorsement or receipt was refused.
#[derive(Clone, Copy, Debug, PartialEq, Eq, Structural)]
pub enum VoteError {
    InactiveVoter,
    InsufficientReputation,
    InvalidQualityScore,
    InvalidContentRating,
    InvalidX402Signature,
    InvalidEndorsementStrength,
    InsufficientEndorserReputation,
    InsufficientEndorsementStake,
    MaxEndorsementsReached,
    SelfEndorsementNotAllowed,
    VotedAgentNotActive,
    RatedAgentNotActive,
    EndorsedAgentNotActive,
    UnauthorizedReceiptCreation,
    SelfTransactionNotAllowed,
    AlreadyVoted,
    NotPartyToTransaction,
    VotedAgentMismatch,
    VotingWindowExpired,
    VoteAlreadyCast,
    VoterNotPartyToTransaction,
    VotedAgentNotCounterparty,
}

} // verus!
