//! Deactivating an identity.

use vstd::prelude::*;
use crate::address::Address;
use crate::identity_registry::stake::saturating_inc_u64;
use crate::identity_registry::state::AgentIdentity;

verus! {

/// Why a deactivation was refused.
#[derive(Clone, Copy, Debug, PartialEq, Eq, Structural)]
pub enum IdentityError {
    AlreadyDeactivated,
    UnauthorizedDeactivation,
}

/// What a deactivation touches: the identity and who signed.
#[derive(Clone, Debug)]
pub struct DeactivateAgent {
    pub agent_identity: AgentIdentity,
    /// The signer.
    pub agent: Address,
}

/// The first reason, if any, for which a deactivation is refused.
pub open spec fn deactivate_rejection(ctx: DeactivateAgent) -> Option<IdentityError> {
    if ctx.agent_identity.agent_address != ctx.agent {
        Some(IdentityError::UnauthorizedDeactivation)
    } else if !ctx.agent_identity.is_active {
        Some(IdentityError::AlreadyDeactivated)
    } else {
        None
    }
}

/// Deactivates an active identity and counts the interaction. Only the owner
/// may.
pub fn handler(ctx: &mut DeactivateAgent, now: i64) -> (r: Result<(), IdentityError>)
    ensures
        match r {
            Ok(()) => {
                &&& deactivate_rejection(*old(ctx)) is None
                &&& *final(ctx) == (DeactivateAgent {
                    agent_identity: AgentIdentity {
                        is_active: false,
                        last_active_timestamp: now,
                        activity_count: saturating_inc_u64(old(ctx).agent_identity.activity_count),
                        ..old(ctx).agent_identity
                    },
                    ..*old(ctx)
                })
            },
            Err(e) => {
                &&& deactivate_rejection(*old(ctx)) == Some(e)
                &&& *final(ctx) == *old(ctx)
            },
        },
{
    if !ctx.agent_identity.agent_address.equals(&ctx.agent) {
        return Err(IdentityError::UnauthorizedDeactivation);
    }
    if !ctx.agent_identity.is_active {
        return Err(IdentityError::AlreadyDeactivated);
    }
    ctx.agent_identity.is_active = false;
    ctx.agent_identity.last_active_timestamp = now;
    ctx.agent_identity.activity_count = ctx.agent_identity.activity_count.saturating_add(1);
    Ok(())
}

} // verus!
