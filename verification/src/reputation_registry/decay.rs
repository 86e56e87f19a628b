//! Time decay of reputations: switching it on and off, restarting the
//! inactivity clock, and persisting the decayed score.

use vstd::prelude::*;
use crate::address::Address;
use crate::reputation_registry::error::{RegistryError, ReputationError};
use crate::reputation_registry::state::{
    days_inactive, lemma_halved_bounds, decay_periods, AgentReputation, DECAY_GRACE_PERIOD_DAYS,
    DECAY_MIN_SCORE, MAX_DECAY_RATE_BPS, MIN_DECAY_RATE_BPS,
};

verus! {

/// Why a decay operation was refused.
#[derive(Clone, Copy, Debug, PartialEq, Eq, Structural)]
pub enum DecayError {
    /// Decay is off. No operation here reports it: applying decay while it is
    /// off leaves the written score. It is there for callers that want to
    /// tell their users so.
    DecayNotEnabled,
    InvalidDecayRate,
}

// ---------------------------------------------------------------------------
// Apply decay
// ---------------------------------------------------------------------------

/// What applying decay touches: the reputation. Anyone may ask for it, at
/// any time.
#[derive(Clone, Copy, Debug)]
pub struct ApplyDecay {
    pub agent_reputation: AgentReputation,
}

/// The reputation after decay was applied at `now`: the score in effect
/// becomes the written score. The base score and the inactivity clock stay,
/// so that decay is always counted from the same anchor. While decay is off
/// the score in effect is the written score, which therefore stays.
pub open spec fn apply_decay_effect(reputation: AgentReputation, now: i64) -> AgentReputation {
    AgentReputation {
        overall_score: reputation.spec_effective_score(now) as u16,
        last_updated: now,
        ..reputation
    }
}

/// Persists the score in effect at `now` as the written score, and returns
/// it. Never refuses.
pub fn apply_decay(ctx: &mut ApplyDecay, now: i64) -> (r: Result<u16, RegistryError>)
    ensures
        r matches Ok(score) && {
            &&& score == old(ctx).agent_reputation.spec_effective_score(now)
            &&& final(ctx).agent_reputation == apply_decay_effect(old(ctx).agent_reputation, now)
            &&& !old(ctx).agent_reputation.decay_enabled ==> score == old(
                ctx,
            ).agent_reputation.overall_score
            &&& old(ctx).agent_reputation.decay_enabled && days_inactive(
                old(ctx).agent_reputation.last_activity,
                now,
            ) > DECAY_GRACE_PERIOD_DAYS ==> score >= DECAY_MIN_SCORE
            &&& old(ctx).agent_reputation.wf() ==> final(ctx).agent_reputation.wf()
        },
{
    let score: u16 = if ctx.agent_reputation.decay_enabled {
        ctx.agent_reputation.calculate_decayed_score(now)
    } else {
        ctx.agent_reputation.overall_score
    };
    ctx.agent_reputation.overall_score = score;
    ctx.agent_reputation.last_updated = now;
    Ok(score)
}

/// Decay does not compound: applying it at one time and again at a later
/// time leaves what applying it once at the later time leaves. While decay
/// is off, that is the written score.
pub proof fn lemma_apply_decay_does_not_compound(
    reputation: AgentReputation,
    first: i64,
    second: i64,
)
    ensures
        apply_decay_effect(apply_decay_effect(reputation, first), second) == apply_decay_effect(
            reputation,
            second,
        ),
        !reputation.decay_enabled ==> apply_decay_effect(reputation, second).overall_score
            == reputation.overall_score,
{
}

/// Once decay has been applied after the grace period, the written score is
/// at or above the floor.
pub proof fn lemma_applied_decay_respects_floor(reputation: AgentReputation, now: i64)
    requires
        reputation.decay_enabled,
        days_inactive(reputation.last_activity, now) > DECAY_GRACE_PERIOD_DAYS,
    ensures
        apply_decay_effect(reputation, now).overall_score >= DECAY_MIN_SCORE,
{
    lemma_halved_bounds(
        reputation.base_score as int,
        0,
        decay_periods(days_inactive(reputation.last_activity, now), reputation.decay_rate_bps),
    );
}

// ---------------------------------------------------------------------------
// Enable and disable
// ---------------------------------------------------------------------------

/// What switching decay on touches: the reputation and who signed.
#[derive(Clone, Copy, Debug)]
pub struct EnableDecay {
    pub agent_reputation: AgentReputation,
    /// The signer.
    pub owner: Address,
}

/// The first reason, if any, for which decay is not switched on.
pub open spec fn enable_decay_rejection(ctx: EnableDecay, decay_rate_bps: u16) -> Option<
    RegistryError,
> {
    if ctx.owner != ctx.agent_reputation.agent_address {
        Some(RegistryError::Reputation(ReputationError::UnauthorizedUpdate))
    } else if decay_rate_bps < MIN_DECAY_RATE_BPS || decay_rate_bps > MAX_DECAY_RATE_BPS {
        Some(RegistryError::Decay(DecayError::InvalidDecayRate))
    } else {
        None
    }
}

/// The reputation after decay was switched on at `now`: the written score
/// becomes the base, and inactivity counts from `now`.
pub open spec fn enable_decay_effect(reputation: AgentReputation, decay_rate_bps: u16, now: i64)
    -> AgentReputation {
    AgentReputation {
        base_score: reputation.overall_score,
        last_activity: now,
        decay_enabled: true,
        decay_rate_bps,
        last_updated: now,
        ..reputation
    }
}

/// Switches decay on at the given rate. Only the agent may.
pub fn enable_decay(ctx: &mut EnableDecay, decay_rate_bps: u16, now: i64) -> (r: Result<
    (),
    RegistryError,
>)
    ensures
        match r {
            Ok(()) => {
                &&& enable_decay_rejection(*old(ctx), decay_rate_bps) is None
                &&& *final(ctx) == (EnableDecay {
                    agent_reputation: enable_decay_effect(
                        old(ctx).agent_reputation,
                        decay_rate_bps,
                        now,
                    ),
                    ..*old(ctx)
                })
                &&& final(ctx).agent_reputation.spec_effective_score(now)
                    == old(ctx).agent_reputation.overall_score
                &&& old(ctx).agent_reputation.wf() ==> final(ctx).agent_reputation.wf()
            },
            Err(e) => {
                &&& enable_decay_rejection(*old(ctx), decay_rate_bps) == Some(e)
                &&& *final(ctx) == *old(ctx)
            },
        },
{
    if !ctx.owner.equals(&ctx.agent_reputation.agent_address) {
        return Err(RegistryError::Reputation(ReputationError::UnauthorizedUpdate));
    }
    if decay_rate_bps < MIN_DECAY_RATE_BPS || decay_rate_bps > MAX_DECAY_RATE_BPS {
        return Err(RegistryError::Decay(DecayError::InvalidDecayRate));
    }
    ctx.agent_reputation.base_score = ctx.agent_reputation.overall_score;
    ctx.agent_reputation.last_activity = now;
    ctx.agent_reputation.decay_enabled = true;
    ctx.agent_reputation.decay_rate_bps = decay_rate_bps;
    ctx.agent_reputation.last_updated = now;
    Ok(())
}

/// What switching decay off touches: the reputation and who signed.
#[derive(Clone, Copy, Debug)]
pub struct DisableDecay {
    pub agent_reputation: AgentReputation,
    /// The signer.
    pub owner: Address,
}

/// Switches decay off and changes nothing else: the score in effect is from
/// then on the score as last written. Only the agent may.
pub fn disable_decay(ctx: &mut DisableDecay) -> (r: Result<(), RegistryError>)
    ensures
        match r {
            Ok(()) => {
                &&& old(ctx).owner == old(ctx).agent_reputation.agent_address
                &&& *final(ctx) == (DisableDecay {
                    agent_reputation: AgentReputation {
                        decay_enabled: false,
                        ..old(ctx).agent_reputation
                    },
                    ..*old(ctx)
                })
                &&& old(ctx).agent_reputation.wf() ==> final(ctx).agent_reputation.wf()
            },
            Err(e) => {
                &&& old(ctx).owner != old(ctx).agent_reputation.agent_address
                &&& e == RegistryError::Reputation(ReputationError::UnauthorizedUpdate)
                &&& *final(ctx) == *old(ctx)
            },
        },
{
    if !ctx.owner.equals(&ctx.agent_reputation.agent_address) {
        return Err(RegistryError::Reputation(ReputationError::UnauthorizedUpdate));
    }
    ctx.agent_reputation.decay_enabled = false;
    Ok(())
}

// ---------------------------------------------------------------------------
// Activity
// ---------------------------------------------------------------------------

/// What recording activity touches: the reputation and who signed.
#[derive(Clone, Copy, Debug)]
pub struct RecordActivity {
    pub agent_reputation: AgentReputation,
    /// The signer.
    pub caller: Address,
}

/// The reputation after activity at `now`: inactivity counts from `now`, and
/// while decay is on the written score becomes the new base.
pub open spec fn record_activity_effect(reputation: AgentReputation, now: i64) -> AgentReputation {
    AgentReputation {
        last_activity: now,
        last_updated: now,
        base_score: if reputation.decay_enabled {
            reputation.overall_score
        } else {
            reputation.base_score
        },
        ..reputation
    }
}

/// Restarts the agent's inactivity clock. Only the agent may.
pub fn record_activity(ctx: &mut RecordActivity, now: i64) -> (r: Result<(), RegistryError>)
    ensures
        match r {
            Ok(()) => {
                &&& old(ctx).caller == old(ctx).agent_reputation.agent_address
                &&& *final(ctx) == (RecordActivity {
                    agent_reputation: record_activity_effect(old(ctx).agent_reputation, now),
                    ..*old(ctx)
                })
                &&& final(ctx).agent_reputation.decay_enabled
                    ==> final(ctx).agent_reputation.spec_effective_score(now)
                    == old(ctx).agent_reputation.overall_score
                &&& old(ctx).agent_reputation.wf() ==> final(ctx).agent_reputation.wf()
            },
            Err(e) => {
                &&& old(ctx).caller != old(ctx).agent_reputation.agent_address
                &&& e == RegistryError::Reputation(ReputationError::UnauthorizedUpdate)
                &&& *final(ctx) == *old(ctx)
            },
        },
{
    if !ctx.caller.equals(&ctx.agent_reputation.agent_address) {
        return Err(RegistryError::Reputation(ReputationError::UnauthorizedUpdate));
    }
    ctx.agent_reputation.record_activity(now);
    ctx.agent_reputation.last_updated = now;
    if ctx.agent_reputation.decay_enabled {
        ctx.agent_reputation.base_score = ctx.agent_reputation.overall_score;
    }
    Ok(())
}

// ---------------------------------------------------------------------------
// Reading the score in effect
// ---------------------------------------------------------------------------

/// What reading the score in effect looks at: the reputation.
#[derive(Clone, Copy, Debug)]
pub struct GetEffectiveScore {
    pub agent_reputation: AgentReputation,
}

/// The score in effect at `now`. Changes nothing.
pub fn get_effective_score(ctx: &GetEffectiveScore, now: i64) -> (score: u16)
    ensures
        score == ctx.agent_reputation.spec_effective_score(now),
{
    ctx.agent_reputation.get_effective_score(now)
}

} // verus!
