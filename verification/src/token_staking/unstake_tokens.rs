//! Withdrawing staked tokens.

use vstd::prelude::*;
use crate::address::Address;
use crate::identity_registry::stake::saturating_dec_u32;
use crate::token_staking::error::TokenStakingError;
use crate::token_staking::stake_position::StakePosition;
use crate::token_staking::staking_vault::{trust_weight, StakingVault};

verus! {

/// What an unstake touches: the vault, the staker's position, who signed, and
/// the token and owner of the account that the tokens go to.
#[derive(Clone, Copy, Debug)]
pub struct UnstakeTokens {
    pub vault: StakingVault,
    pub stake_position: StakePosition,
    /// The signer.
    pub staker: Address,
    /// The token of the staker's token account.
    pub staker_token_mint: Address,
    /// The owner of the staker's token account.
    pub staker_token_owner: Address,
}

/// The first reason, if any, for which an unstake is refused.
pub open spec fn unstake_rejection(ctx: UnstakeTokens, amount: u64, base_weight: u64, now: i64)
    -> Option<TokenStakingError> {
    if !ctx.stake_position.is_active {
        Some(TokenStakingError::StakeNotActive)
    } else if ctx.stake_position.staker != ctx.staker {
        Some(TokenStakingError::UnauthorizedStaker)
    } else if ctx.staker_token_mint != ctx.vault.token_mint {
        Some(TokenStakingError::InvalidTokenMint)
    } else if ctx.staker_token_owner != ctx.staker {
        Some(TokenStakingError::InvalidTokenOwner)
    } else if now < ctx.stake_position.locked_until {
        Some(TokenStakingError::StakeLocked)
    } else if amount == 0 || amount > ctx.stake_position.amount {
        Some(TokenStakingError::InvalidUnstakeAmount)
    } else if (amount < ctx.stake_position.amount && trust_weight(
        base_weight,
        ctx.vault.weight_multiplier,
    ) > u64::MAX) || ctx.vault.total_staked < amount {
        Some(TokenStakingError::ArithmeticOverflow)
    } else {
        None
    }
}

/// The records after an accepted unstake. Taking everything closes the
/// position, which then carries no trust and counts as one staker fewer;
/// taking a part leaves it open with its trust weighed again.
pub open spec fn unstake_effect(ctx: UnstakeTokens, amount: u64, base_weight: u64, now: i64)
    -> UnstakeTokens {
    let full = amount == ctx.stake_position.amount;
    UnstakeTokens {
        stake_position: if full {
            StakePosition {
                amount: 0,
                is_active: false,
                unstaked_at: now,
                trust_weight: 0,
                ..ctx.stake_position
            }
        } else {
            StakePosition {
                amount: (ctx.stake_position.amount - amount) as u64,
                trust_weight: trust_weight(base_weight, ctx.vault.weight_multiplier) as u64,
                ..ctx.stake_position
            }
        },
        vault: StakingVault {
            total_staked: (ctx.vault.total_staked - amount) as u64,
            total_stakers: if full {
                saturating_dec_u32(ctx.vault.total_stakers)
            } else {
                ctx.vault.total_stakers
            },
            updated_at: now,
            ..ctx.vault
        },
        ..ctx
    }
}

/// Withdraws `amount` tokens from the signer's position once its lock has run
/// out, and returns what remains. `base_weight` is the base weight of the
/// remainder; it is not read when everything is withdrawn.
///
/// The caller moves `amount` from the vault's token account to the staker's
/// in the same atomic step.
pub fn handler(ctx: &mut UnstakeTokens, amount: u64, base_weight: u64, now: i64) -> (r: Result<
    u64,
    TokenStakingError,
>)
    ensures
        match r {
            Ok(remaining) => {
                &&& unstake_rejection(*old(ctx), amount, base_weight, now) is None
                &&& *final(ctx) == unstake_effect(*old(ctx), amount, base_weight, now)
                &&& remaining == old(ctx).stake_position.amount - amount
            },
            Err(e) => {
                &&& unstake_rejection(*old(ctx), amount, base_weight, now) == Some(e)
                &&& *final(ctx) == *old(ctx)
            },
        },
{
    if !ctx.stake_position.is_active {
        return Err(TokenStakingError::StakeNotActive);
    }
    if !ctx.stake_position.staker.equals(&ctx.staker) {
        return Err(TokenStakingError::UnauthorizedStaker);
    }
    if !ctx.staker_token_mint.equals(&ctx.vault.token_mint) {
        return Err(TokenStakingError::InvalidTokenMint);
    }
    if !ctx.staker_token_owner.equals(&ctx.staker) {
        return Err(TokenStakingError::InvalidTokenOwner);
    }
    if !ctx.stake_position.can_unlock(now) {
        return Err(TokenStakingError::StakeLocked);
    }
    if !(amount > 0 && amount <= ctx.stake_position.amount) {
        return Err(TokenStakingError::InvalidUnstakeAmount);
    }
    let is_full_unstake: bool = amount == ctx.stake_position.amount;
    let remaining: u64 = ctx.stake_position.amount - amount;
    let weight: u64 = if is_full_unstake {
        0
    } else {
        match ctx.vault.calculate_trust_weight(base_weight) {
            Some(v) => v,
            None => { return Err(TokenStakingError::ArithmeticOverflow); },
        }
    };
    let vault_total: u64 = match ctx.vault.total_staked.checked_sub(amount) {
        Some(v) => v,
        None => { return Err(TokenStakingError::ArithmeticOverflow); },
    };
    ctx.stake_position.amount = remaining;
    ctx.stake_position.trust_weight = weight;
    if is_full_unstake {
        ctx.stake_position.is_active = false;
        ctx.stake_position.unstaked_at = now;
        ctx.vault.total_stakers = ctx.vault.total_stakers.saturating_sub(1);
    }
    ctx.vault.total_staked = vault_total;
    ctx.vault.updated_at = now;
    Ok(remaining)
}

} // verus!
