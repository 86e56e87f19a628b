//! Casting a vote on the other party of a payment.

use vstd::prelude::*;
use crate::address::Address;
use crate::vote_registry::error::VoteError;
use crate::vote_registry::peer_vote::{PeerVote, QualityScores, VoteType, VOTE_WEIGHT};
use crate::vote_registry::transaction_receipt::{TransactionReceipt, VOTING_WINDOW_SECONDS};

verus! {

/// What the identity registry says of an agent.
#[derive(Clone, Debug)]
pub struct AgentIdentity {
    pub agent_address: Address,
    pub asset_address: Address,
    pub metadata_uri: String,
    pub registration_timestamp: i64,
    pub last_active_timestamp: i64,
    pub activity_count: u64,
    pub is_active: bool,
    pub bump: u8,
}

/// What the reputation registry says of an agent.
#[derive(Clone, Copy, Debug)]
pub struct AgentReputation {
    pub agent_address: Address,
    pub overall_score: u16,
}

/// Lowest score from which an agent may vote.
pub const MIN_VOTER_REPUTATION: u16 = 100;

/// What a vote touches: the fresh vote record, the receipt with its address,
/// what the registries say of the two agents, and who signed.
#[derive(Clone, Debug)]
pub struct CastPeerVote {
    pub peer_vote: PeerVote,
    pub transaction_receipt: TransactionReceipt,
    /// The address under which the receipt is kept.
    pub transaction_receipt_key: Address,
    pub voter_identity: AgentIdentity,
    pub voter_reputation: AgentReputation,
    pub voted_agent_identity: AgentIdentity,
    /// The signer.
    pub voter: Address,
}

/// The other party of the receipt's payment, seen from the voter.
pub open spec fn counterparty(receipt: TransactionReceipt, voter: Address) -> Address {
    if receipt.payer == voter {
        receipt.recipient
    } else {
        receipt.payer
    }
}

/// The first reason, if any, for which a vote is refused.
pub open spec fn vote_rejection(
    ctx: CastPeerVote,
    voted_agent: Address,
    quality_scores: QualityScores,
    now: i64,
) -> Option<VoteError> {
    if ctx.transaction_receipt.vote_cast {
        Some(VoteError::VoteAlreadyCast)
    } else if ctx.transaction_receipt.payer != ctx.voter && ctx.transaction_receipt.recipient
        != ctx.voter {
        Some(VoteError::VoterNotPartyToTransaction)
    } else if now - ctx.transaction_receipt.timestamp > VOTING_WINDOW_SECONDS {
        Some(VoteError::VotingWindowExpired)
    } else if voted_agent != counterparty(ctx.transaction_receipt, ctx.voter) {
        Some(VoteError::VotedAgentNotCounterparty)
    } else if !ctx.voter_identity.is_active {
        Some(VoteError::InactiveVoter)
    } else if ctx.voter_reputation.overall_score < MIN_VOTER_REPUTATION {
        Some(VoteError::InsufficientReputation)
    } else if !ctx.voted_agent_identity.is_active {
        Some(VoteError::VotedAgentNotActive)
    } else if !quality_scores.in_range() {
        Some(VoteError::InvalidQualityScore)
    } else {
        None
    }
}

/// Casts the signer's vote on the other party of a payment, and uses up the
/// receipt. One vote per receipt, within the voting window, by an active
/// agent of sufficient reputation on an active agent.
pub fn handler(
    ctx: &mut CastPeerVote,
    voted_agent: Address,
    vote_type: VoteType,
    quality_scores: QualityScores,
    comment_hash: [u8; 32],
    now: i64,
    bump: u8,
) -> (r: Result<(), VoteError>)
    ensures
        match r {
            Ok(()) => {
                &&& vote_rejection(*old(ctx), voted_agent, quality_scores, now) is None
                &&& *final(ctx) == (CastPeerVote {
                    peer_vote: PeerVote {
                        voter: old(ctx).voter,
                        voted_agent,
                        vote_type,
                        quality_scores,
                        comment_hash,
                        timestamp: now,
                        voter_reputation_snapshot: old(ctx).voter_reputation.overall_score,
                        transaction_receipt: old(ctx).transaction_receipt_key,
                        vote_weight: VOTE_WEIGHT,
                        bump,
                    },
                    transaction_receipt: TransactionReceipt {
                        vote_cast: true,
                        ..old(ctx).transaction_receipt
                    },
                    ..*old(ctx)
                })
            },
            Err(e) => {
                &&& vote_rejection(*old(ctx), voted_agent, quality_scores, now) == Some(e)
                &&& *final(ctx) == *old(ctx)
            },
        },
{
    if ctx.transaction_receipt.vote_cast {
        return Err(VoteError::VoteAlreadyCast);
    }
    let voter_is_payer: bool = ctx.transaction_receipt.payer.equals(&ctx.voter);
    if !voter_is_payer && !ctx.transaction_receipt.recipient.equals(&ctx.voter) {
        return Err(VoteError::VoterNotPartyToTransaction);
    }
    let time_since_transaction: i128 = now as i128 - ctx.transaction_receipt.timestamp as i128;
    if time_since_transaction > VOTING_WINDOW_SECONDS as i128 {
        return Err(VoteError::VotingWindowExpired);
    }
    let other_party: Address = if voter_is_payer {
        ctx.transaction_receipt.recipient
    } else {
        ctx.transaction_receipt.payer
    };
    if !voted_agent.equals(&other_party) {
        return Err(VoteError::VotedAgentNotCounterparty);
    }
    if !ctx.voter_identity.is_active {
        return Err(VoteError::InactiveVoter);
    }
    if ctx.voter_reputation.overall_score < MIN_VOTER_REPUTATION {
        return Err(VoteError::InsufficientReputation);
    }
    if !ctx.voted_agent_identity.is_active {
        return Err(VoteError::VotedAgentNotActive);
    }
    if !(quality_scores.response_quality <= 100 && quality_scores.response_speed <= 100
        && quality_scores.accuracy <= 100 && quality_scores.professionalism <= 100) {
        return Err(VoteError::InvalidQualityScore);
    }
    ctx.peer_vote = PeerVote {
        voter: ctx.voter,
        voted_agent,
        vote_type,
        quality_scores,
        comment_hash,
        timestamp: now,
        voter_reputation_snapshot: ctx.voter_reputation.overall_score,
        transaction_receipt: ctx.transaction_receipt_key,
        vote_weight: PeerVote::calculate_vote_weight(ctx.transaction_receipt.amount),
        bump,
    };
    ctx.transaction_receipt.vote_cast = true;
    Ok(())
}

/// A receipt entitles to one vote: once a vote was cast on it, every further
/// vote on it is refused, whoever signs and whatever the time.
pub proof fn lemma_one_vote_per_receipt(
    ctx: CastPeerVote,
    voted_agent: Address,
    quality_scores: QualityScores,
    now: i64,
)
    requires
        ctx.transaction_receipt.vote_cast,
    ensures
        vote_rejection(ctx, voted_agent, quality_scores, now) == Some(VoteError::VoteAlreadyCast),
{
}

} // verus!
