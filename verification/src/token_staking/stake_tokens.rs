//! Staking tokens on an agent.

use vstd::prelude::*;
use crate::address::Address;
use crate::identity_registry::stake::saturating_inc_u32;
use crate::token_staking::error::TokenStakingError;
use crate::token_staking::stake_position::{StakeCategory, StakePosition};
use crate::token_staking::staking_vault::{trust_weight, StakingVault};

verus! {

/// What a stake touches: the vault, the staker's position, who signed, and
/// the token and owner of the account that the tokens come from.
#[derive(Clone, Copy, Debug)]
pub struct StakeTokens {
    pub vault: StakingVault,
    /// The address under which the vault is kept.
    pub vault_key: Address,
    pub stake_position: StakePosition,
    /// The signer.
    pub staker: Address,
    /// The token of the staker's token account.
    pub staker_token_mint: Address,
    /// The owner of the staker's token account.
    pub staker_token_owner: Address,
}

/// Whether the stake opens the position rather than adding to an open one.
pub open spec fn opens_position(position: StakePosition) -> bool {
    !position.is_active || position.staker.is_zero()
}

/// The tokens in the position once `amount` has joined it.
pub open spec fn total_after_stake(position: StakePosition, amount: u64) -> int {
    if opens_position(position) {
        amount as int
    } else {
        position.amount + amount
    }
}

/// The first reason, if any, for which a stake is refused.
pub open spec fn stake_rejection(ctx: StakeTokens, amount: u64, base_weight: u64, now: i64)
    -> Option<TokenStakingError> {
    if !ctx.vault.is_active {
        Some(TokenStakingError::VaultNotActive)
    } else if ctx.staker_token_mint != ctx.vault.token_mint {
        Some(TokenStakingError::InvalidTokenMint)
    } else if ctx.staker_token_owner != ctx.staker {
        Some(TokenStakingError::InvalidTokenOwner)
    } else if ctx.staker == ctx.vault.target_agent {
        Some(TokenStakingError::SelfStakingNotAllowed)
    } else if amount < ctx.vault.min_stake_amount {
        Some(TokenStakingError::BelowMinimumStake)
    } else if total_after_stake(ctx.stake_position, amount) > u64::MAX || trust_weight(
        base_weight,
        ctx.vault.weight_multiplier,
    ) > u64::MAX || now + ctx.vault.lock_period_seconds > i64::MAX || now
        + ctx.vault.lock_period_seconds < i64::MIN || ctx.vault.total_staked + amount > u64::MAX {
        Some(TokenStakingError::ArithmeticOverflow)
    } else {
        None
    }
}

/// The records after an accepted stake. A stake that opens the position
/// fills it in and counts the staker; one that adds to it raises the amount.
/// Either way the lock starts anew and the trust is weighed again.
pub open spec fn stake_effect(
    ctx: StakeTokens,
    amount: u64,
    category: StakeCategory,
    base_weight: u64,
    now: i64,
    bump: u8,
) -> StakeTokens {
    let weight = trust_weight(base_weight, ctx.vault.weight_multiplier) as u64;
    let locked_until = (now + ctx.vault.lock_period_seconds) as i64;
    StakeTokens {
        stake_position: if opens_position(ctx.stake_position) {
            StakePosition {
                vault: ctx.vault_key,
                staker: ctx.staker,
                target_agent: ctx.vault.target_agent,
                token_mint: ctx.vault.token_mint,
                amount,
                category,
                trust_weight: weight,
                staked_at: now,
                locked_until,
                unstaked_at: 0,
                is_active: true,
                is_slashed: false,
                bump,
            }
        } else {
            StakePosition {
                amount: (ctx.stake_position.amount + amount) as u64,
                trust_weight: weight,
                locked_until,
                category,
                ..ctx.stake_position
            }
        },
        vault: StakingVault {
            total_staked: (ctx.vault.total_staked + amount) as u64,
            total_stakers: if opens_position(ctx.stake_position) {
                saturating_inc_u32(ctx.vault.total_stakers)
            } else {
                ctx.vault.total_stakers
            },
            updated_at: now,
            ..ctx.vault
        },
        ..ctx
    }
}

/// The tokens that the position would hold after a stake of `amount`, for the
/// caller to weigh; `None` where they do not fit.
pub fn staked_total(ctx: &StakeTokens, amount: u64) -> (total: Option<u64>)
    ensures
        match total {
            Some(t) => t == total_after_stake(ctx.stake_position, amount),
            None => total_after_stake(ctx.stake_position, amount) > u64::MAX,
        },
{
    if is_new_stake(&ctx.stake_position) {
        Some(amount)
    } else {
        ctx.stake_position.amount.checked_add(amount)
    }
}

/// Whether a stake would open the position.
fn is_new_stake(position: &StakePosition) -> (new: bool)
    ensures
        new == opens_position(*position),
{
    if !position.is_active {
        return true;
    }
    let zero = Address::zero();
    let same = position.staker.equals(&zero);
    proof {
        if position.staker.is_zero() {
            crate::address::lemma_zero_is_unique(position.staker, zero);
        }
    }
    same
}

/// Stakes `amount` tokens of the signer on the vault's agent, and returns the
/// tokens the position then holds. `base_weight` is the base weight of that
/// total.
///
/// The caller moves `amount` from the staker's token account to the vault's
/// in the same atomic step.
pub fn handler(
    ctx: &mut StakeTokens,
    amount: u64,
    category: StakeCategory,
    base_weight: u64,
    now: i64,
    bump: u8,
) -> (r: Result<u64, TokenStakingError>)
    ensures
        match r {
            Ok(total) => {
                &&& stake_rejection(*old(ctx), amount, base_weight, now) is None
                &&& *final(ctx) == stake_effect(*old(ctx), amount, category, base_weight, now, bump)
                &&& total == total_after_stake(old(ctx).stake_position, amount)
            },
            Err(e) => {
                &&& stake_rejection(*old(ctx), amount, base_weight, now) == Some(e)
                &&& *final(ctx) == *old(ctx)
            },
        },
{
    if !ctx.vault.is_active {
        return Err(TokenStakingError::VaultNotActive);
    }
    if !ctx.staker_token_mint.equals(&ctx.vault.token_mint) {
        return Err(TokenStakingError::InvalidTokenMint);
    }
    if !ctx.staker_token_owner.equals(&ctx.staker) {
        return Err(TokenStakingError::InvalidTokenOwner);
    }
    if ctx.staker.equals(&ctx.vault.target_agent) {
        return Err(TokenStakingError::SelfStakingNotAllowed);
    }
    if amount < ctx.vault.min_stake_amount {
        return Err(TokenStakingError::BelowMinimumStake);
    }
    let new_stake: bool = is_new_stake(&ctx.stake_position);
    let total_stake: u64 = match staked_total(ctx, amount) {
        Some(v) => v,
        None => { return Err(TokenStakingError::ArithmeticOverflow); },
    };
    let weight: u64 = match ctx.vault.calculate_trust_weight(base_weight) {
        Some(v) => v,
        None => { return Err(TokenStakingError::ArithmeticOverflow); },
    };
    let locked_until: i64 = match now.checked_add(ctx.vault.lock_period_seconds) {
        Some(v) => v,
        None => { return Err(TokenStakingError::ArithmeticOverflow); },
    };
    let vault_total: u64 = match ctx.vault.total_staked.checked_add(amount) {
        Some(v) => v,
        None => { return Err(TokenStakingError::ArithmeticOverflow); },
    };
    if new_stake {
        ctx.stake_position.vault = ctx.vault_key;
        ctx.stake_position.staker = ctx.staker;
        ctx.stake_position.target_agent = ctx.vault.target_agent;
        ctx.stake_position.token_mint = ctx.vault.token_mint;
        ctx.stake_position.amount = amount;
        ctx.stake_position.category = category;
        ctx.stake_position.trust_weight = weight;
        ctx.stake_position.staked_at = now;
        ctx.stake_position.locked_until = locked_until;
        ctx.stake_position.unstaked_at = 0;
        ctx.stake_position.is_active = true;
        ctx.stake_position.is_slashed = false;
        ctx.stake_position.bump = bump;
        ctx.vault.total_stakers = ctx.vault.total_stakers.saturating_add(1);
    } else {
        ctx.stake_position.amount = total_stake;
        ctx.stake_position.trust_weight = weight;
        ctx.stake_position.locked_until = locked_until;
        ctx.stake_position.category = category;
    }
    ctx.vault.total_staked = vault_total;
    ctx.vault.updated_at = now;
    Ok(total_stake)
}

} // verus!
