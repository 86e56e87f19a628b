//! Naming the authority that draws consensus and issues stamps.

use vstd::prelude::*;
use crate::address::Address;
use crate::validation_registry::state::ValidationAuthority;

verus! {

/// What naming the authority touches: the fresh authority record and the
/// address that is to hold the authority.
#[derive(Clone, Copy, Debug)]
pub struct InitializeAuthority {
    pub authority_account: ValidationAuthority,
    pub authority: Address,
}

/// Records the authority.
pub fn handler(ctx: &mut InitializeAuthority, bump: u8)
    ensures
        *final(ctx) == (InitializeAuthority {
            authority_account: ValidationAuthority { authority: old(ctx).authority, bump },
            ..*old(ctx)
        }),
{
    ctx.authority_account.authority = ctx.authority;
    ctx.authority_account.bump = bump;
}

} // verus!
