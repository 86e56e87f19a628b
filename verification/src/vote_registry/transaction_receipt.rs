//! The receipt of a payment, which entitles its parties to one vote.

use vstd::prelude::*;
use crate::address::Address;
use crate::vote_registry::content_rating::ContentType;

verus! {

/// How long after a transaction a vote on it is taken: 30 days.
pub const VOTING_WINDOW_SECONDS: i64 = 30 * 24 * 60 * 60;

/// A payment between two agents.
#[derive(Clone, Debug)]
pub struct TransactionReceipt {
    /// Signature of the payment.
    pub signature: String,
    pub payer: Address,
    pub recipient: Address,
    pub amount: u64,
    pub timestamp: i64,
    pub content_type: ContentType,
    /// Whether the vote that the receipt entitles to has been cast.
    pub vote_cast: bool,
    pub bump: u8,
}

} // verus!
