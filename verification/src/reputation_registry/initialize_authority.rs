//! Naming the authority that may write reputations directly.

use vstd::prelude::*;
use crate::address::Address;
use crate::reputation_registry::state::ReputationAuthority;

verus! {

/// What naming the authority touches: the fresh authority record and the
/// address that is to hold the authority.
#[derive(Clone, Copy, Debug)]
pub struct InitializeAuthority {
    pub authority_account: ReputationAuthority,
    pub authority: Address,
}

/// Records the authority.
pub fn handler(ctx: &mut InitializeAuthority, bump: u8)
    ensures
        *final(ctx) == (InitializeAuthority {
            authority_account: ReputationAuthority { authority: old(ctx).authority, bump },
            ..*old(ctx)
        }),
{
    ctx.authority_account.authority = ctx.authority;
    ctx.authority_account.bump = bump;
}

} // verus!
