//! One agent's endorsement of another, backed by a stake.

use vstd::prelude::*;
use crate::address::Address;

verus! {

/// What an endorsement vouches for.
#[derive(Clone, Copy, Debug, PartialEq, Eq, Structural)]
pub enum EndorsementCategory {
    Technical,
    Reliability,
    Quality,
    Trustworthy,
    Collaborative,
}

/// The stake that every endorsement locks.
pub const MIN_STAKE: u64 = 10_000_000;

/// Highest endorsement strength.
pub const MAX_ENDORSEMENT_STRENGTH: u8 = 100;

/// Lowest score from which an agent may endorse.
pub const MIN_ENDORSER_REPUTATION: u16 = 500;

/// An endorsement.
#[derive(Clone, Copy, Debug)]
pub struct AgentEndorsement {
    pub endorser: Address,
    pub endorsed: Address,
    /// 0 to 100.
    pub strength: u8,
    pub category: EndorsementCategory,
    pub timestamp: i64,
    /// The endorser's score when the endorsement was given.
    pub endorser_reputation_snapshot: u16,
    /// The stake locked for the endorsement.
    pub stake_amount: u64,
    pub is_active: bool,
    pub bump: u8,
}

} // verus!
