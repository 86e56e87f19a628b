//! A vote of one agent on another.

use vstd::prelude::*;
use crate::address::Address;

verus! {

/// How the voter found the other agent.
#[derive(Clone, Copy, Debug, PartialEq, Eq, Structural)]
pub enum VoteType {
    Upvote,
    Downvote,
    Neutral,
}

/// Highest quality score.
pub const MAX_QUALITY_SCORE: u8 = 100;

/// The weight of every vote, in hundredths: each transaction counts once.
pub const VOTE_WEIGHT: u16 = 100;

/// The four quality scores of a vote, each 0 to 100.
#[derive(Clone, Copy, Debug, PartialEq, Eq, Structural)]
pub struct QualityScores {
    pub response_quality: u8,
    pub response_speed: u8,
    pub accuracy: u8,
    pub professionalism: u8,
}

impl QualityScores {
    /// Whether every score is within its range.
    pub open spec fn in_range(&self) -> bool {
        &&& self.response_quality <= MAX_QUALITY_SCORE
        &&& self.response_speed <= MAX_QUALITY_SCORE
        &&& self.accuracy <= MAX_QUALITY_SCORE
        &&& self.professionalism <= MAX_QUALITY_SCORE
    }
}

impl Default for QualityScores {
    fn default() -> (scores: QualityScores)
        ensures
            scores == (QualityScores {
                response_quality: 0,
                response_speed: 0,
                accuracy: 0,
                professionalism: 0,
            }),
    {
        QualityScores { response_quality: 0, response_speed: 0, accuracy: 0, professionalism: 0 }
    }
}

/// A vote, tied to the transaction that entitles the voter to it.
#[derive(Clone, Copy, Debug)]
pub struct PeerVote {
    pub voter: Address,
    pub voted_agent: Address,
    pub vote_type: VoteType,
    pub quality_scores: QualityScores,
    /// Hash of the comment, which is kept elsewhere.
    pub comment_hash: [u8; 32],
    pub timestamp: i64,
    /// The voter's score when the vote was cast.
    pub voter_reputation_snapshot: u16,
    /// The receipt that proves the transaction.
    pub transaction_receipt: Address,
    /// In hundredths: 100 is 1x.
    pub vote_weight: u16,
    pub bump: u8,
}

impl PeerVote {
    /// The weight of a vote after a transaction of the given amount: the
    /// same for every amount.
    pub fn calculate_vote_weight(_transaction_amount: u64) -> (weight: u16)
        ensures
            weight == VOTE_WEIGHT,
    {
        VOTE_WEIGHT
    }
}

} // verus!
