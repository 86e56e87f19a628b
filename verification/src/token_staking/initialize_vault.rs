//! Setting up a vault.

use vstd::prelude::*;
use crate::address::Address;
use crate::token_staking::error::TokenStakingError;
use crate::token_staking::staking_vault::{
    StakingVault, MAX_LOCK_PERIOD, MAX_WEIGHT_MULTIPLIER, MIN_WEIGHT_MULTIPLIER,
};

verus! {

/// What setting up a vault touches: the fresh vault record, the addresses of
/// its token account, its token and its agent, and who signed.
#[derive(Clone, Copy, Debug)]
pub struct InitializeVault {
    pub vault: StakingVault,
    pub vault_token_account: Address,
    pub token_mint: Address,
    pub target_agent: Address,
    /// The signer, who becomes the vault's authority.
    pub authority: Address,
}

/// Whether a lock period is one a vault can have.
pub open spec fn lock_period_valid(lock_period_seconds: i64) -> bool {
    0 < lock_period_seconds <= MAX_LOCK_PERIOD
}

/// Whether a weight multiplier is one a vault can have.
pub open spec fn weight_multiplier_valid(weight_multiplier: u16) -> bool {
    MIN_WEIGHT_MULTIPLIER <= weight_multiplier <= MAX_WEIGHT_MULTIPLIER
}

/// The first reason, if any, for which a vault's settings are refused.
pub open spec fn settings_rejection(lock_period_seconds: i64, weight_multiplier: u16) -> Option<
    TokenStakingError,
> {
    if !lock_period_valid(lock_period_seconds) {
        Some(TokenStakingError::InvalidLockPeriod)
    } else if !weight_multiplier_valid(weight_multiplier) {
        Some(TokenStakingError::InvalidWeightMultiplier)
    } else {
        None
    }
}

/// Sets up an active, empty, unverified vault. A minimum stake of zero is
/// raised to one unit.
pub fn handler(
    ctx: &mut InitializeVault,
    min_stake_amount: u64,
    lock_period_seconds: i64,
    weight_multiplier: u16,
    now: i64,
    bump: u8,
    vault_bump: u8,
) -> (r: Result<(), TokenStakingError>)
    ensures
        match r {
            Ok(()) => {
                &&& settings_rejection(lock_period_seconds, weight_multiplier) is None
                &&& *final(ctx) == (InitializeVault {
                    vault: StakingVault {
                        target_agent: old(ctx).target_agent,
                        token_mint: old(ctx).token_mint,
                        vault_token_account: old(ctx).vault_token_account,
                        min_stake_amount: if min_stake_amount == 0 {
                            1
                        } else {
                            min_stake_amount
                        },
                        lock_period_seconds,
                        weight_multiplier,
                        total_staked: 0,
                        total_stakers: 0,
                        authority: old(ctx).authority,
                        is_active: true,
                        is_verified: false,
                        created_at: now,
                        updated_at: now,
                        bump,
                        vault_bump,
                    },
                    ..*old(ctx)
                })
            },
            Err(e) => {
                &&& settings_rejection(lock_period_seconds, weight_multiplier) == Some(e)
                &&& *final(ctx) == *old(ctx)
            },
        },
{
    if !(lock_period_seconds > 0 && lock_period_seconds <= MAX_LOCK_PERIOD) {
        return Err(TokenStakingError::InvalidLockPeriod);
    }
    if !(weight_multiplier >= MIN_WEIGHT_MULTIPLIER && weight_multiplier <= MAX_WEIGHT_MULTIPLIER) {
        return Err(TokenStakingError::InvalidWeightMultiplier);
    }
    ctx.vault = StakingVault {
        target_agent: ctx.target_agent,
        token_mint: ctx.token_mint,
        vault_token_account: ctx.vault_token_account,
        min_stake_amount: if min_stake_amount == 0 { 1 } else { min_stake_amount },
        lock_period_seconds,
        weight_multiplier,
        total_staked: 0,
        total_stakers: 0,
        authority: ctx.authority,
        is_active: true,
        is_verified: false,
        created_at: now,
        updated_at: now,
        bump,
        vault_bump,
    };
    Ok(())
}

} // verus!
