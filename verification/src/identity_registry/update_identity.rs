//! Changing an identity's metadata location.

use vstd::prelude::*;
use crate::address::Address;
use crate::identity_registry::stake::saturating_inc_u64;
use crate::identity_registry::state::AgentIdentity;
use crate::text::{byte_len, stored_len};

verus! {

/// Why an update was refused.
#[derive(Clone, Copy, Debug, PartialEq, Eq, Structural)]
pub enum IdentityError {
    MetadataUriTooLong,
    IdentityDeactivated,
    UnauthorizedUpdate,
}

/// Longest metadata location, in bytes.
pub const MAX_METADATA_URI_LEN: usize = 200;

/// What an update touches: the identity and who signed.
#[derive(Clone, Debug)]
pub struct UpdateIdentity {
    pub agent_identity: AgentIdentity,
    /// The signer.
    pub agent: Address,
}

/// The first reason, if any, for which an update is refused.
pub open spec fn update_rejection(ctx: UpdateIdentity, metadata_uri: Seq<char>) -> Option<
    IdentityError,
> {
    if ctx.agent_identity.agent_address != ctx.agent {
        Some(IdentityError::UnauthorizedUpdate)
    } else if byte_len(metadata_uri) > MAX_METADATA_URI_LEN {
        Some(IdentityError::MetadataUriTooLong)
    } else if !ctx.agent_identity.is_active {
        Some(IdentityError::IdentityDeactivated)
    } else {
        None
    }
}

/// Replaces the metadata location of an active identity and counts the
/// interaction. Only the owner may.
pub fn handler(ctx: &mut UpdateIdentity, metadata_uri: String, now: i64) -> (r: Result<
    (),
    IdentityError,
>)
    ensures
        match r {
            Ok(()) => {
                &&& update_rejection(*old(ctx), metadata_uri@) is None
                &&& *final(ctx) == (UpdateIdentity {
                    agent_identity: AgentIdentity {
                        metadata_uri,
                        last_active_timestamp: now,
                        activity_count: saturating_inc_u64(old(ctx).agent_identity.activity_count),
                        ..old(ctx).agent_identity
                    },
                    ..*old(ctx)
                })
            },
            Err(e) => {
                &&& update_rejection(*old(ctx), metadata_uri@) == Some(e)
                &&& *final(ctx) == *old(ctx)
            },
        },
{
    if !ctx.agent_identity.agent_address.equals(&ctx.agent) {
        return Err(IdentityError::UnauthorizedUpdate);
    }
    if stored_len(&metadata_uri) > MAX_METADATA_URI_LEN {
        return Err(IdentityError::MetadataUriTooLong);
    }
    if !ctx.agent_identity.is_active {
        return Err(IdentityError::IdentityDeactivated);
    }
    ctx.agent_identity.metadata_uri = metadata_uri;
    ctx.agent_identity.last_active_timestamp = now;
    ctx.agent_identity.activity_count = ctx.agent_identity.activity_count.saturating_add(1);
    Ok(())
}

} // verus!
