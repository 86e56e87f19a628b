//! Registering an agent.

use vstd::prelude::*;
use crate::address::Address;
use crate::identity_registry::state::AgentIdentity;
use crate::text::{byte_len, stored_len};

verus! {

/// Why a registration was refused.
#[derive(Clone, Copy, Debug, PartialEq, Eq, Structural)]
pub enum IdentityError {
    MetadataUriTooLong,
}

/// Longest metadata location, in bytes.
pub const MAX_METADATA_URI_LEN: usize = 200;

/// What a registration touches: the fresh identity record and who signed.
#[derive(Clone, Debug)]
pub struct RegisterAgent {
    pub agent_identity: AgentIdentity,
    /// The signer, who becomes the identity's owner.
    pub agent: Address,
}

/// Registers the signer as an active agent with the given asset and metadata
/// location. This counts as the identity's first interaction. The collateral
/// fields of the record are left as they are.
pub fn handler(
    ctx: &mut RegisterAgent,
    asset_address: Address,
    metadata_uri: String,
    now: i64,
    bump: u8,
) -> (r: Result<(), IdentityError>)
    ensures
        r is Ok <==> byte_len(metadata_uri@) <= MAX_METADATA_URI_LEN,
        r is Err ==> r == Err::<(), IdentityError>(IdentityError::MetadataUriTooLong) && *final(ctx)
            == *old(ctx),
        r is Ok ==> *final(ctx) == (RegisterAgent {
            agent_identity: AgentIdentity {
                agent_address: old(ctx).agent,
                asset_address,
                metadata_uri,
                registration_timestamp: now,
                last_active_timestamp: now,
                activity_count: 1,
                is_active: true,
                bump,
                ..old(ctx).agent_identity
            },
            ..*old(ctx)
        }),
{
    if stored_len(&metadata_uri) > MAX_METADATA_URI_LEN {
        return Err(IdentityError::MetadataUriTooLong);
    }
    ctx.agent_identity.agent_address = ctx.agent;
    ctx.agent_identity.asset_address = asset_address;
    ctx.agent_identity.metadata_uri = metadata_uri;
    ctx.agent_identity.registration_timestamp = now;
    ctx.agent_identity.last_active_timestamp = now;
    ctx.agent_identity.activity_count = 1;
    ctx.agent_identity.is_active = true;
    ctx.agent_identity.bump = bump;
    Ok(())
}

} // verus!
