//! Changing a vault's settings, pausing it, and handing it over.

use vstd::prelude::*;
use crate::address::Address;
use crate::token_staking::error::TokenStakingError;
use crate::token_staking::initialize_vault::{lock_period_valid, weight_multiplier_valid};
use crate::token_staking::staking_vault::{
    StakingVault, MAX_LOCK_PERIOD, MAX_WEIGHT_MULTIPLIER, MIN_WEIGHT_MULTIPLIER,
};

verus! {

/// What a change of settings touches: the vault and who signed.
#[derive(Clone, Copy, Debug)]
pub struct UpdateVault {
    pub vault: StakingVault,
    /// The signer.
    pub authority: Address,
}

/// The first reason, if any, for which new settings are refused.
pub open spec fn update_rejection(
    ctx: UpdateVault,
    lock_period_seconds: Option<i64>,
    weight_multiplier: Option<u16>,
) -> Option<TokenStakingError> {
    if ctx.vault.authority != ctx.authority {
        Some(TokenStakingError::UnauthorizedAuthority)
    } else if lock_period_seconds matches Some(period) && !lock_period_valid(period) {
        Some(TokenStakingError::InvalidLockPeriod)
    } else if weight_multiplier matches Some(multiplier) && !weight_multiplier_valid(multiplier) {
        Some(TokenStakingError::InvalidWeightMultiplier)
    } else {
        None
    }
}

/// The vault after accepted new settings: each setting that is given replaces
/// the old one, a minimum stake of zero being raised to one unit.
pub open spec fn update_effect(
    vault: StakingVault,
    min_stake_amount: Option<u64>,
    lock_period_seconds: Option<i64>,
    weight_multiplier: Option<u16>,
    now: i64,
) -> StakingVault {
    StakingVault {
        min_stake_amount: match min_stake_amount {
            Some(min_stake) => if min_stake == 0 { 1 } else { min_stake },
            None => vault.min_stake_amount,
        },
        lock_period_seconds: match lock_period_seconds {
            Some(period) => period,
            None => vault.lock_period_seconds,
        },
        weight_multiplier: match weight_multiplier {
            Some(multiplier) => multiplier,
            None => vault.weight_multiplier,
        },
        updated_at: now,
        ..vault
    }
}

/// Replaces those settings of the vault that are given. Only the vault's
/// authority may.
pub fn update_vault_config(
    ctx: &mut UpdateVault,
    min_stake_amount: Option<u64>,
    lock_period_seconds: Option<i64>,
    weight_multiplier: Option<u16>,
    now: i64,
) -> (r: Result<(), TokenStakingError>)
    ensures
        match r {
            Ok(()) => {
                &&& update_rejection(*old(ctx), lock_period_seconds, weight_multiplier) is None
                &&& *final(ctx) == (UpdateVault {
                    vault: update_effect(
                        old(ctx).vault,
                        min_stake_amount,
                        lock_period_seconds,
                        weight_multiplier,
                        now,
                    ),
                    ..*old(ctx)
                })
            },
            Err(e) => {
                &&& update_rejection(*old(ctx), lock_period_seconds, weight_multiplier) == Some(e)
                &&& *final(ctx) == *old(ctx)
            },
        },
{
    if !ctx.vault.authority.equals(&ctx.authority) {
        return Err(TokenStakingError::UnauthorizedAuthority);
    }
    if let Some(lock_period) = lock_period_seconds {
        if !(lock_period > 0 && lock_period <= MAX_LOCK_PERIOD) {
            return Err(TokenStakingError::InvalidLockPeriod);
        }
    }
    if let Some(multiplier) = weight_multiplier {
        if !(multiplier >= MIN_WEIGHT_MULTIPLIER && multiplier <= MAX_WEIGHT_MULTIPLIER) {
            return Err(TokenStakingError::InvalidWeightMultiplier);
        }
    }
    if let Some(min_stake) = min_stake_amount {
        ctx.vault.min_stake_amount = if min_stake == 0 { 1 } else { min_stake };
    }
    if let Some(lock_period) = lock_period_seconds {
        ctx.vault.lock_period_seconds = lock_period;
    }
    if let Some(multiplier) = weight_multiplier {
        ctx.vault.weight_multiplier = multiplier;
    }
    ctx.vault.updated_at = now;
    Ok(())
}

/// Stops the vault from taking new stakes. Only the vault's authority may.
pub fn pause_vault(ctx: &mut UpdateVault, now: i64) -> (r: Result<(), TokenStakingError>)
    ensures
        r is Ok <==> old(ctx).vault.authority == old(ctx).authority,
        r is Err ==> r == Err::<(), TokenStakingError>(TokenStakingError::UnauthorizedAuthority)
            && *final(ctx) == *old(ctx),
        r is Ok ==> *final(ctx) == (UpdateVault {
            vault: StakingVault { is_active: false, updated_at: now, ..old(ctx).vault },
            ..*old(ctx)
        }),
{
    if !ctx.vault.authority.equals(&ctx.authority) {
        return Err(TokenStakingError::UnauthorizedAuthority);
    }
    ctx.vault.is_active = false;
    ctx.vault.updated_at = now;
    Ok(())
}

/// Lets the vault take stakes again. Only the vault's authority may.
pub fn unpause_vault(ctx: &mut UpdateVault, now: i64) -> (r: Result<(), TokenStakingError>)
    ensures
        r is Ok <==> old(ctx).vault.authority == old(ctx).authority,
        r is Err ==> r == Err::<(), TokenStakingError>(TokenStakingError::UnauthorizedAuthority)
            && *final(ctx) == *old(ctx),
        r is Ok ==> *final(ctx) == (UpdateVault {
            vault: StakingVault { is_active: true, updated_at: now, ..old(ctx).vault },
            ..*old(ctx)
        }),
{
    if !ctx.vault.authority.equals(&ctx.authority) {
        return Err(TokenStakingError::UnauthorizedAuthority);
    }
    ctx.vault.is_active = true;
    ctx.vault.updated_at = now;
    Ok(())
}

/// What handing a vault over touches: the vault, who signed, and who is to
/// follow.
#[derive(Clone, Copy, Debug)]
pub struct TransferVaultAuthority {
    pub vault: StakingVault,
    /// The signer.
    pub authority: Address,
    pub new_authority: Address,
}

/// Makes `new_authority` the vault's authority. Only the current one may.
pub fn transfer_authority(ctx: &mut TransferVaultAuthority, now: i64) -> (r: Result<
    (),
    TokenStakingError,
>)
    ensures
        r is Ok <==> old(ctx).vault.authority == old(ctx).authority,
        r is Err ==> r == Err::<(), TokenStakingError>(TokenStakingError::UnauthorizedAuthority)
            && *final(ctx) == *old(ctx),
        r is Ok ==> *final(ctx) == (TransferVaultAuthority {
            vault: StakingVault {
                authority: old(ctx).new_authority,
                updated_at: now,
                ..old(ctx).vault
            },
            ..*old(ctx)
        }),
{
    if !ctx.vault.authority.equals(&ctx.authority) {
        return Err(TokenStakingError::UnauthorizedAuthority);
    }
    ctx.vault.authority = ctx.new_authority;
    ctx.vault.updated_at = now;
    Ok(())
}

} // verus!
