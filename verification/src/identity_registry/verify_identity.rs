//! Checking that an identity is active.

use vstd::prelude::*;
use crate::identity_registry::state::AgentIdentity;

verus! {

/// Why a check failed.
#[derive(Clone, Copy, Debug, PartialEq, Eq, Structural)]
pub enum IdentityError {
    IdentityNotActive,
}

/// What a check looks at: the identity.
#[derive(Clone, Debug)]
pub struct VerifyIdentity {
    pub agent_identity: AgentIdentity,
}

/// Succeeds exactly for an active identity.
pub fn handler(ctx: &VerifyIdentity) -> (r: Result<(), IdentityError>)
    ensures
        r is Ok <==> ctx.agent_identity.is_active,
        r is Err ==> r == Err::<(), IdentityError>(IdentityError::IdentityNotActive),
{
    if !ctx.agent_identity.is_active {
        return Err(IdentityError::IdentityNotActive);
    }
    Ok(())
}

} // verus!
