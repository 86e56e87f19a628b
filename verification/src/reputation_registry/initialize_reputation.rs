//! Opening a reputation for an agent.

use vstd::prelude::*;
use crate::address::Address;
use crate::reputation_registry::state::{AgentReputation, ComponentScores, ReputationStats};

verus! {

/// What opening a reputation touches: the fresh record and the agent it is for.
#[derive(Clone, Copy, Debug)]
pub struct InitializeReputation {
    pub agent_reputation: AgentReputation,
    pub agent_address: Address,
}

/// Whether a reputation is that of an agent without any history: all scores
/// and tallies zero, no commitment, and decay off.
pub open spec fn is_blank(reputation: AgentReputation) -> bool {
    &&& reputation.overall_score == 0
    &&& reputation.base_score == 0
    &&& reputation.component_scores == (ComponentScores {
        trust: 0,
        quality: 0,
        reliability: 0,
        economic: 0,
        social: 0,
    })
    &&& reputation.stats == (ReputationStats {
        total_votes: 0,
        positive_votes: 0,
        negative_votes: 0,
        total_reviews: 0,
        avg_review_rating: 0,
    })
    &&& forall|i: int| 0 <= i < 32 ==> reputation.payment_proofs_merkle_root[i] == 0u8
    &&& reputation.last_activity == 0
    &&& !reputation.decay_enabled
    &&& reputation.decay_rate_bps == 0
}

/// Opens a blank reputation for the agent.
pub fn handler(ctx: &mut InitializeReputation, now: i64, bump: u8)
    ensures
        final(ctx).agent_address == old(ctx).agent_address,
        final(ctx).agent_reputation.agent_address == old(ctx).agent_address,
        final(ctx).agent_reputation.last_updated == now,
        final(ctx).agent_reputation.bump == bump,
        is_blank(final(ctx).agent_reputation),
        final(ctx).agent_reputation.wf(),
{
    ctx.agent_reputation = AgentReputation {
        agent_address: ctx.agent_address,
        overall_score: 0,
        component_scores: ComponentScores::default(),
        stats: ReputationStats::default(),
        payment_proofs_merkle_root: [0u8; 32],
        last_updated: now,
        bump,
        base_score: 0,
        last_activity: 0,
        decay_enabled: false,
        decay_rate_bps: 0,
    };
}

} // verus!
