//! Endorsing another agent.

use vstd::prelude::*;
use crate::address::Address;
use crate::vote_registry::agent_endorsement::{
    AgentEndorsement, EndorsementCategory, MAX_ENDORSEMENT_STRENGTH, MIN_ENDORSER_REPUTATION,
    MIN_STAKE,
};
use crate::vote_registry::error::VoteError;

verus! {

/// What the identity registry says of an agent.
#[derive(Clone, Debug)]
pub struct AgentIdentity {
    pub agent_address: Address,
    pub asset_address: Address,
    pub metadata_uri: String,
    pub registration_timestamp: i64,
    pub last_active_timestamp: i64,
    pub activity_count: u64,
    pub is_active: bool,
    pub bump: u8,
}

/// What the reputation registry says of an agent.
#[derive(Clone, Copy, Debug)]
pub struct AgentReputation {
    pub agent_address: Address,
    pub overall_score: u16,
}

/// What an endorsement touches: the fresh endorsement record, what the
/// registries say of the two agents, and who signed.
#[derive(Clone, Debug)]
pub struct EndorseAgent {
    pub endorsement: AgentEndorsement,
    pub endorser_identity: AgentIdentity,
    pub endorser_reputation: AgentReputation,
    pub endorsed_agent_identity: AgentIdentity,
    /// The signer.
    pub endorser: Address,
}

/// The first reason, if any, for which an endorsement is refused.
pub open spec fn endorsement_rejection(ctx: EndorseAgent, endorsed_agent: Address, strength: u8)
    -> Option<VoteError> {
    if ctx.endorser == endorsed_agent {
        Some(VoteError::SelfEndorsementNotAllowed)
    } else if strength > MAX_ENDORSEMENT_STRENGTH {
        Some(VoteError::InvalidEndorsementStrength)
    } else if !ctx.endorser_identity.is_active {
        Some(VoteError::InactiveVoter)
    } else if ctx.endorser_reputation.overall_score < MIN_ENDORSER_REPUTATION {
        Some(VoteError::InsufficientEndorserReputation)
    } else if !ctx.endorsed_agent_identity.is_active {
        Some(VoteError::EndorsedAgentNotActive)
    } else {
        None
    }
}

/// Records the signer's endorsement of another active agent, and returns the
/// stake that it locks. Only an active agent of high reputation may endorse.
///
/// The caller moves the stake from the endorser's custody to the
/// endorsement's in the same atomic step.
pub fn handler(
    ctx: &mut EndorseAgent,
    endorsed_agent: Address,
    strength: u8,
    category: EndorsementCategory,
    now: i64,
    bump: u8,
) -> (r: Result<u64, VoteError>)
    ensures
        match r {
            Ok(stake) => {
                &&& endorsement_rejection(*old(ctx), endorsed_agent, strength) is None
                &&& stake == MIN_STAKE
                &&& *final(ctx) == (EndorseAgent {
                    endorsement: AgentEndorsement {
                        endorser: old(ctx).endorser,
                        endorsed: endorsed_agent,
                        strength,
                        category,
                        timestamp: now,
                        endorser_reputation_snapshot: old(ctx).endorser_reputation.overall_score,
                        stake_amount: MIN_STAKE,
                        is_active: true,
                        bump,
                    },
                    ..*old(ctx)
                })
            },
            Err(e) => {
                &&& endorsement_rejection(*old(ctx), endorsed_agent, strength) == Some(e)
                &&& *final(ctx) == *old(ctx)
            },
        },
{
    if ctx.endorser.equals(&endorsed_agent) {
        return Err(VoteError::SelfEndorsementNotAllowed);
    }
    if strength > MAX_ENDORSEMENT_STRENGTH {
        return Err(VoteError::InvalidEndorsementStrength);
    }
    if !ctx.endorser_identity.is_active {
        return Err(VoteError::InactiveVoter);
    }
    if ctx.endorser_reputation.overall_score < MIN_ENDORSER_REPUTATION {
        return Err(VoteError::InsufficientEndorserReputation);
    }
    if !ctx.endorsed_agent_identity.is_active {
        return Err(VoteError::EndorsedAgentNotActive);
    }
    ctx.endorsement = AgentEndorsement {
        endorser: ctx.endorser,
        endorsed: endorsed_agent,
        strength,
        category,
        timestamp: now,
        endorser_reputation_snapshot: ctx.endorser_reputation.overall_score,
        stake_amount: MIN_STAKE,
        is_active: true,
        bump,
    };
    Ok(MIN_STAKE)
}

} // verus!
