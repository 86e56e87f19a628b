//! Writing a reputation directly, by the registry's authority.

use vstd::prelude::*;
use crate::address::Address;
use crate::reputation_registry::error::{RegistryError, ReputationError};
use crate::reputation_registry::state::{
    AgentReputation, ComponentScores, ReputationAuthority, ReputationStats, MAX_OVERALL_SCORE,
    MAX_REVIEW_RATING,
};

verus! {

/// What a direct update touches: the reputation, the authority record, and
/// who signed.
#[derive(Clone, Copy, Debug)]
pub struct UpdateReputation {
    pub agent_reputation: AgentReputation,
    pub authority_account: ReputationAuthority,
    /// The signer.
    pub authority: Address,
}

/// The first reason, if any, for which an update is refused.
pub open spec fn update_rejection(
    ctx: UpdateReputation,
    overall_score: u16,
    component_scores: ComponentScores,
    stats: ReputationStats,
) -> Option<RegistryError> {
    if ctx.authority_account.authority != ctx.authority {
        Some(RegistryError::Reputation(ReputationError::UnauthorizedAuthority))
    } else if overall_score > MAX_OVERALL_SCORE {
        Some(RegistryError::Reputation(ReputationError::InvalidOverallScore))
    } else if !component_scores.in_range() {
        Some(RegistryError::Reputation(ReputationError::InvalidComponentScore))
    } else if stats.avg_review_rating > MAX_REVIEW_RATING {
        Some(RegistryError::Reputation(ReputationError::InvalidReviewRating))
    } else {
        None
    }
}

/// Replaces the reputation's scores, tallies and commitment; the new score
/// becomes the base from which decay counts. Only the authority may.
pub fn handler(
    ctx: &mut UpdateReputation,
    overall_score: u16,
    component_scores: ComponentScores,
    stats: ReputationStats,
    payment_proofs_merkle_root: [u8; 32],
    now: i64,
) -> (r: Result<(), RegistryError>)
    ensures
        match r {
            Ok(()) => {
                &&& update_rejection(*old(ctx), overall_score, component_scores, stats) is None
                &&& *final(ctx) == (UpdateReputation {
                    agent_reputation: AgentReputation {
                        overall_score,
                        base_score: overall_score,
                        component_scores,
                        stats,
                        payment_proofs_merkle_root,
                        last_updated: now,
                        ..old(ctx).agent_reputation
                    },
                    ..*old(ctx)
                })
                &&& old(ctx).agent_reputation.wf() ==> final(ctx).agent_reputation.wf()
            },
            Err(e) => {
                &&& update_rejection(*old(ctx), overall_score, component_scores, stats) == Some(e)
                &&& *final(ctx) == *old(ctx)
            },
        },
{
    if !ctx.authority_account.authority.equals(&ctx.authority) {
        return Err(RegistryError::Reputation(ReputationError::UnauthorizedAuthority));
    }
    if overall_score > MAX_OVERALL_SCORE {
        return Err(RegistryError::Reputation(ReputationError::InvalidOverallScore));
    }
    if !(component_scores.trust <= 100 && component_scores.quality <= 100
        && component_scores.reliability <= 100 && component_scores.economic <= 100
        && component_scores.social <= 100) {
        return Err(RegistryError::Reputation(ReputationError::InvalidComponentScore));
    }
    if stats.avg_review_rating > MAX_REVIEW_RATING {
        return Err(RegistryError::Reputation(ReputationError::InvalidReviewRating));
    }
    ctx.agent_reputation.overall_score = overall_score;
    ctx.agent_reputation.base_score = overall_score;
    ctx.agent_reputation.component_scores = component_scores;
    ctx.agent_reputation.stats = stats;
    ctx.agent_reputation.payment_proofs_merkle_root = payment_proofs_merkle_root;
    ctx.agent_reputation.last_updated = now;
    Ok(())
}

} // verus!
