//! Rating content that was paid for.

use vstd::prelude::*;
use crate::address::Address;
use crate::text::{byte_len, stored_len};
use crate::vote_registry::content_rating::{
    ContentRating, ContentType, MAX_CONTENT_RATING, MAX_SIGNATURE_LEN,
};
use crate::vote_registry::error::VoteError;

verus! {

/// What the identity registry says of an agent.
#[derive(Clone, Debug)]
pub struct AgentIdentity {
    pub agent_address: Address,
    pub asset_address: Address,
    pub metadata_uri: String,
    pub registration_timestamp: i64,
    pub last_active_timestamp: i64,
    pub activity_count: u64,
    pub is_active: bool,
    pub bump: u8,
}

/// What the reputation registry says of an agent.
#[derive(Clone, Copy, Debug)]
pub struct AgentReputation {
    pub agent_address: Address,
    pub overall_score: u16,
}

/// What a rating touches: the fresh rating record, what the registries say of
/// the rater and of the rated agent, and who signed.
#[derive(Clone, Debug)]
pub struct RateContent {
    pub content_rating: ContentRating,
    pub rater_identity: AgentIdentity,
    pub rater_reputation: AgentReputation,
    pub rated_agent_identity: AgentIdentity,
    pub rated_agent: Address,
    /// The signer.
    pub rater: Address,
}

/// The first reason, if any, for which a rating is refused.
pub open spec fn rating_rejection(ctx: RateContent, x402_signature: Seq<char>, quality_rating: u8)
    -> Option<VoteError> {
    if byte_len(x402_signature) > MAX_SIGNATURE_LEN {
        Some(VoteError::InvalidX402Signature)
    } else if quality_rating > MAX_CONTENT_RATING {
        Some(VoteError::InvalidContentRating)
    } else if !ctx.rater_identity.is_active {
        Some(VoteError::InactiveVoter)
    } else if !ctx.rated_agent_identity.is_active {
        Some(VoteError::RatedAgentNotActive)
    } else {
        None
    }
}

/// Records the signer's rating of an active agent's content.
pub fn handler(
    ctx: &mut RateContent,
    x402_signature: String,
    quality_rating: u8,
    content_type: ContentType,
    amount_paid: u64,
    now: i64,
    bump: u8,
) -> (r: Result<(), VoteError>)
    ensures
        match r {
            Ok(()) => {
                &&& rating_rejection(*old(ctx), x402_signature@, quality_rating) is None
                &&& *final(ctx) == (RateContent {
                    content_rating: ContentRating {
                        agent: old(ctx).rated_agent,
                        rater: old(ctx).rater,
                        x402_signature,
                        quality_rating,
                        content_type,
                        amount_paid,
                        timestamp: now,
                        rater_reputation_snapshot: old(ctx).rater_reputation.overall_score,
                        bump,
                    },
                    ..*old(ctx)
                })
            },
            Err(e) => {
                &&& rating_rejection(*old(ctx), x402_signature@, quality_rating) == Some(e)
                &&& *final(ctx) == *old(ctx)
            },
        },
{
    if stored_len(&x402_signature) > MAX_SIGNATURE_LEN {
        return Err(VoteError::InvalidX402Signature);
    }
    if quality_rating > MAX_CONTENT_RATING {
        return Err(VoteError::InvalidContentRating);
    }
    if !ctx.rater_identity.is_active {
        return Err(VoteError::InactiveVoter);
    }
    if !ctx.rated_agent_identity.is_active {
        return Err(VoteError::RatedAgentNotActive);
    }
    ctx.content_rating.agent = ctx.rated_agent;
    ctx.content_rating.rater = ctx.rater;
    ctx.content_rating.x402_signature = x402_signature;
    ctx.content_rating.quality_rating = quality_rating;
    ctx.content_rating.content_type = content_type;
    ctx.content_rating.amount_paid = amount_paid;
    ctx.content_rating.timestamp = now;
    ctx.content_rating.rater_reputation_snapshot = ctx.rater_reputation.overall_score;
    ctx.content_rating.bump = bump;
    Ok(())
}

} // verus!
