use agent_trust::address::Address;
use agent_trust::token_staking::error::TokenStakingError;
use agent_trust::token_staking::initialize_vault::InitializeVault;
use agent_trust::token_staking::stake_position::{StakeCategory, StakePosition};
use agent_trust::token_staking::stake_tokens::{staked_total, StakeTokens};
use agent_trust::token_staking::staking_vault::{
    StakingVault, DEFAULT_LOCK_PERIOD, DEFAULT_MIN_STAKE, MAX_LOCK_PERIOD,
};
use agent_trust::token_staking::unstake_tokens::UnstakeTokens;
use agent_trust::token_staking::update_vault::{
    pause_vault, transfer_authority, unpause_vault, update_vault_config, TransferVaultAuthority,
    UpdateVault,
};
use agent_trust::token_staking::{initialize_vault, stake_tokens, unstake_tokens};

const DAY: i64 = 86_400;

fn addr(n: u8) -> Address {
    Address::new([n; 32])
}

fn blank_vault() -> StakingVault {
    StakingVault {
        target_agent: addr(0),
        token_mint: addr(0),
        vault_token_account: addr(0),
        min_stake_amount: 0,
        lock_period_seconds: 0,
        weight_multiplier: 0,
        total_staked: 5,
        total_stakers: 5,
        authority: addr(0),
        is_active: false,
        is_verified: true,
        created_at: 0,
        updated_at: 0,
        bump: 0,
        vault_bump: 0,
    }
}

fn blank_position() -> StakePosition {
    StakePosition {
        vault: addr(0),
        staker: addr(0),
        target_agent: addr(0),
        token_mint: addr(0),
        amount: 0,
        category: StakeCategory::General,
        trust_weight: 0,
        staked_at: 0,
        locked_until: 0,
        unstaked_at: 0,
        is_active: false,
        is_slashed: false,
        bump: 0,
    }
}

fn vault(multiplier: u16) -> StakingVault {
    let mut ctx = InitializeVault {
        vault: blank_vault(),
        vault_token_account: addr(31),
        token_mint: addr(30),
        target_agent: addr(20),
        authority: addr(9),
    };
    assert_eq!(
        initialize_vault::handler(&mut ctx, 1_000_000, 7 * DAY, multiplier, 100, 4, 5),
        Ok(())
    );
    ctx.vault
}

fn stake_ctx(v: StakingVault, p: StakePosition, staker: Address) -> StakeTokens {
    StakeTokens {
        vault: v,
        vault_key: addr(40),
        stake_position: p,
        staker,
        staker_token_mint: addr(30),
        staker_token_owner: staker,
    }
}

fn unstake_ctx(v: StakingVault, p: StakePosition, staker: Address) -> UnstakeTokens {
    UnstakeTokens {
        vault: v,
        stake_position: p,
        staker,
        staker_token_mint: addr(30),
        staker_token_owner: staker,
    }
}

#[test]
fn vault_is_set_up_active_and_empty() {
    let v = vault(150);
    assert_eq!(v.target_agent, addr(20));
    assert_eq!(v.token_mint, addr(30));
    assert_eq!(v.vault_token_account, addr(31));
    assert_eq!(v.min_stake_amount, 1_000_000);
    assert_eq!(v.lock_period_seconds, 7 * DAY);
    assert_eq!(v.weight_multiplier, 150);
    assert_eq!(v.total_staked, 0);
    assert_eq!(v.total_stakers, 0);
    assert_eq!(v.authority, addr(9));
    assert!(v.is_active);
    assert!(!v.is_verified);
    assert_eq!(v.created_at, 100);
    assert_eq!(v.updated_at, 100);
    assert_eq!(v.bump, 4);
    assert_eq!(v.vault_bump, 5);
    assert_eq!(DEFAULT_MIN_STAKE, 1_000_000);
    assert_eq!(DEFAULT_LOCK_PERIOD, 604_800);
    assert_eq!(MAX_LOCK_PERIOD, 31_536_000);
    assert_eq!(StakeCategory::default(), StakeCategory::General);
}

#[test]
fn vault_settings_are_checked() {
    let mut ctx = InitializeVault {
        vault: blank_vault(),
        vault_token_account: addr(31),
        token_mint: addr(30),
        target_agent: addr(20),
        authority: addr(9),
    };
    for period in [0, -1, MAX_LOCK_PERIOD + 1] {
        assert_eq!(
            initialize_vault::handler(&mut ctx, 1, period, 5, 100, 4, 5),
            Err(TokenStakingError::InvalidLockPeriod)
        );
    }
    for multiplier in [0, 9, 1_001] {
        assert_eq!(
            initialize_vault::handler(&mut ctx, 1, 1, multiplier, 100, 4, 5),
            Err(TokenStakingError::InvalidWeightMultiplier)
        );
    }
    assert!(!ctx.vault.is_active);
    assert_eq!(ctx.vault.total_staked, 5);
    assert_eq!(initialize_vault::handler(&mut ctx, 0, MAX_LOCK_PERIOD, 10, 100, 4, 5), Ok(()));
    assert_eq!(ctx.vault.min_stake_amount, 1);
    assert_eq!(initialize_vault::handler(&mut ctx, 9, 1, 1_000, 100, 4, 5), Ok(()));
    assert_eq!(ctx.vault.min_stake_amount, 9);
}

#[test]
fn trust_weight_scales_the_base_weight() {
    assert_eq!(vault(100).calculate_trust_weight(1_993), Some(1_993));
    assert_eq!(vault(150).calculate_trust_weight(1_993), Some(2_989));
    assert_eq!(vault(10).calculate_trust_weight(6_400), Some(640));
    assert_eq!(vault(1_000).calculate_trust_weight(6_400), Some(64_000));
    assert_eq!(vault(100).calculate_trust_weight(0), Some(0));
    assert_eq!(vault(100).calculate_trust_weight(u64::MAX), Some(u64::MAX));
    assert_eq!(vault(101).calculate_trust_weight(u64::MAX), None);
    assert_eq!(vault(99).calculate_trust_weight(u64::MAX), Some(18_262_276_632_972_456_098));
}

#[test]
fn first_token_stake_opens_the_position() {
    let mut ctx = stake_ctx(vault(150), blank_position(), addr(1));
    assert_eq!(staked_total(&ctx, 2_000_000), Some(2_000_000));
    assert_eq!(
        stake_tokens::handler(&mut ctx, 2_000_000, StakeCategory::Quality, 2_093, 1_000, 8),
        Ok(2_000_000)
    );
    let p = ctx.stake_position;
    assert_eq!(p.vault, addr(40));
    assert_eq!(p.staker, addr(1));
    assert_eq!(p.target_agent, addr(20));
    assert_eq!(p.token_mint, addr(30));
    assert_eq!(p.amount, 2_000_000);
    assert_eq!(p.category, StakeCategory::Quality);
    assert_eq!(p.trust_weight, 3_139);
    assert_eq!(p.staked_at, 1_000);
    assert_eq!(p.locked_until, 1_000 + 7 * DAY);
    assert_eq!(p.unstaked_at, 0);
    assert!(p.is_active);
    assert!(!p.is_slashed);
    assert_eq!(p.bump, 8);
    assert_eq!(ctx.vault.total_staked, 2_000_000);
    assert_eq!(ctx.vault.total_stakers, 1);
    assert_eq!(ctx.vault.updated_at, 1_000);
}

#[test]
fn further_token_stake_adds_and_relocks() {
    let mut ctx = stake_ctx(vault(150), blank_position(), addr(1));
    assert!(stake_tokens::handler(&mut ctx, 2_000_000, StakeCategory::Quality, 2_093, 1_000, 8).is_ok());
    assert_eq!(staked_total(&ctx, 3_000_000), Some(5_000_000));
    assert_eq!(
        stake_tokens::handler(&mut ctx, 3_000_000, StakeCategory::Security, 2_225, 5_000, 99),
        Ok(5_000_000)
    );
    let p = ctx.stake_position;
    assert_eq!(p.amount, 5_000_000);
    assert_eq!(p.category, StakeCategory::Security);
    assert_eq!(p.trust_weight, 3_337);
    assert_eq!(p.staked_at, 1_000);
    assert_eq!(p.locked_until, 5_000 + 7 * DAY);
    assert_eq!(p.bump, 8);
    assert_eq!(ctx.vault.total_staked, 5_000_000);
    assert_eq!(ctx.vault.total_stakers, 1);
    assert_eq!(ctx.vault.updated_at, 5_000);
}

#[test]
fn closed_position_is_opened_again_by_a_stake() {
    let mut closed = blank_position();
    closed.staker = addr(1);
    closed.amount = 7;
    closed.unstaked_at = 55;
    closed.is_slashed = true;
    let mut ctx = stake_ctx(vault(100), closed, addr(1));
    assert_eq!(staked_total(&ctx, 1_000_000), Some(1_000_000));
    assert_eq!(
        stake_tokens::handler(&mut ctx, 1_000_000, StakeCategory::General, 1_993, 1_000, 8),
        Ok(1_000_000)
    );
    assert_eq!(ctx.stake_position.amount, 1_000_000);
    assert_eq!(ctx.stake_position.unstaked_at, 0);
    assert!(!ctx.stake_position.is_slashed);
    assert_eq!(ctx.vault.total_stakers, 1);

    let mut unowned = blank_position();
    unowned.is_active = true;
    unowned.amount = 7;
    let mut ctx = stake_ctx(vault(100), unowned, addr(1));
    assert_eq!(staked_total(&ctx, 1_000_000), Some(1_000_000));
    assert!(stake_tokens::handler(&mut ctx, 1_000_000, StakeCategory::General, 0, 0, 0).is_ok());
    assert_eq!(ctx.stake_position.amount, 1_000_000);
}

#[test]
fn token_stake_errors_in_order() {
    let mut v = vault(100);
    v.is_active = false;
    let mut ctx = stake_ctx(v, blank_position(), addr(20));
    ctx.staker_token_mint = addr(99);
    ctx.staker_token_owner = addr(98);
    assert_eq!(
        stake_tokens::handler(&mut ctx, 1, StakeCategory::General, 0, 0, 0),
        Err(TokenStakingError::VaultNotActive)
    );
    ctx.vault.is_active = true;
    assert_eq!(
        stake_tokens::handler(&mut ctx, 1, StakeCategory::General, 0, 0, 0),
        Err(TokenStakingError::InvalidTokenMint)
    );
    ctx.staker_token_mint = addr(30);
    assert_eq!(
        stake_tokens::handler(&mut ctx, 1, StakeCategory::General, 0, 0, 0),
        Err(TokenStakingError::InvalidTokenOwner)
    );
    ctx.staker_token_owner = addr(20);
    assert_eq!(
        stake_tokens::handler(&mut ctx, 1, StakeCategory::General, 0, 0, 0),
        Err(TokenStakingError::SelfStakingNotAllowed)
    );
    ctx.staker = addr(1);
    ctx.staker_token_owner = addr(1);
    assert_eq!(
        stake_tokens::handler(&mut ctx, 999_999, StakeCategory::General, 0, 0, 0),
        Err(TokenStakingError::BelowMinimumStake)
    );
    assert_eq!(
        stake_tokens::handler(&mut ctx, 1_000_000, StakeCategory::General, 0, i64::MAX, 0),
        Err(TokenStakingError::ArithmeticOverflow)
    );
    ctx.vault.total_staked = u64::MAX;
    assert_eq!(
        stake_tokens::handler(&mut ctx, 1_000_000, StakeCategory::General, 0, 0, 0),
        Err(TokenStakingError::ArithmeticOverflow)
    );
    ctx.vault.total_staked = 0;
    ctx.vault.weight_multiplier = 1_000;
    assert_eq!(
        stake_tokens::handler(&mut ctx, 1_000_000, StakeCategory::General, u64::MAX, 0, 0),
        Err(TokenStakingError::ArithmeticOverflow)
    );
    ctx.stake_position.is_active = true;
    ctx.stake_position.staker = addr(1);
    ctx.stake_position.amount = u64::MAX;
    assert_eq!(staked_total(&ctx, 1_000_000), None);
    assert_eq!(
        stake_tokens::handler(&mut ctx, 1_000_000, StakeCategory::General, 0, 0, 0),
        Err(TokenStakingError::ArithmeticOverflow)
    );
    assert_eq!(ctx.stake_position.amount, u64::MAX);
    assert_eq!(ctx.vault.total_staked, 0);
    assert_eq!(ctx.vault.total_stakers, 0);
    assert_eq!(ctx.vault.updated_at, 100);
}

#[test]
fn token_unstake_in_part_and_in_full() {
    let mut staked = stake_ctx(vault(150), blank_position(), addr(1));
    assert!(stake_tokens::handler(&mut staked, 5_000_000, StakeCategory::Quality, 2_225, 1_000, 8)
        .is_ok());
    assert!(!staked.stake_position.can_unlock(1_000 + 7 * DAY - 1));
    assert!(staked.stake_position.can_unlock(1_000 + 7 * DAY));
    let mut ctx = unstake_ctx(staked.vault, staked.stake_position, addr(1));
    assert_eq!(
        unstake_tokens::handler(&mut ctx, 1, 0, 1_000 + 7 * DAY - 1),
        Err(TokenStakingError::StakeLocked)
    );
    assert_eq!(unstake_tokens::handler(&mut ctx, 2_000_000, 2_151, 1_000 + 7 * DAY), Ok(3_000_000));
    assert_eq!(ctx.stake_position.amount, 3_000_000);
    assert_eq!(ctx.stake_position.trust_weight, 3_226);
    assert!(ctx.stake_position.is_active);
    assert_eq!(ctx.stake_position.unstaked_at, 0);
    assert_eq!(ctx.vault.total_staked, 3_000_000);
    assert_eq!(ctx.vault.total_stakers, 1);
    assert_eq!(ctx.vault.updated_at, 1_000 + 7 * DAY);
    assert_eq!(unstake_tokens::handler(&mut ctx, 3_000_000, 12_345, 9 * DAY), Ok(0));
    assert_eq!(ctx.stake_position.amount, 0);
    assert_eq!(ctx.stake_position.trust_weight, 0);
    assert!(!ctx.stake_position.is_active);
    assert_eq!(ctx.stake_position.unstaked_at, 9 * DAY);
    assert_eq!(ctx.vault.total_staked, 0);
    assert_eq!(ctx.vault.total_stakers, 0);
    assert_eq!(
        unstake_tokens::handler(&mut ctx, 1, 0, 10 * DAY),
        Err(TokenStakingError::StakeNotActive)
    );
    assert!(!ctx.stake_position.can_unlock(10 * DAY));
}

#[test]
fn token_unstake_errors_in_order() {
    let mut staked = stake_ctx(vault(1_000), blank_position(), addr(1));
    assert!(stake_tokens::handler(&mut staked, 5_000_000, StakeCategory::Quality, 2_225, 0, 8).is_ok());
    let mut ctx = unstake_ctx(staked.vault, staked.stake_position, addr(2));
    ctx.staker_token_mint = addr(99);
    ctx.staker_token_owner = addr(98);
    assert_eq!(
        unstake_tokens::handler(&mut ctx, 0, 0, 0),
        Err(TokenStakingError::UnauthorizedStaker)
    );
    ctx.staker = addr(1);
    assert_eq!(unstake_tokens::handler(&mut ctx, 0, 0, 0), Err(TokenStakingError::InvalidTokenMint));
    ctx.staker_token_mint = addr(30);
    assert_eq!(
        unstake_tokens::handler(&mut ctx, 0, 0, 0),
        Err(TokenStakingError::InvalidTokenOwner)
    );
    ctx.staker_token_owner = addr(1);
    assert_eq!(unstake_tokens::handler(&mut ctx, 0, 0, 0), Err(TokenStakingError::StakeLocked));
    assert_eq!(
        unstake_tokens::handler(&mut ctx, 0, 0, 8 * DAY),
        Err(TokenStakingError::InvalidUnstakeAmount)
    );
    assert_eq!(
        unstake_tokens::handler(&mut ctx, 5_000_001, 0, 8 * DAY),
        Err(TokenStakingError::InvalidUnstakeAmount)
    );
    assert_eq!(
        unstake_tokens::handler(&mut ctx, 1, u64::MAX, 8 * DAY),
        Err(TokenStakingError::ArithmeticOverflow)
    );
    ctx.vault.total_staked = 10;
    assert_eq!(
        unstake_tokens::handler(&mut ctx, 11, 0, 8 * DAY),
        Err(TokenStakingError::ArithmeticOverflow)
    );
    assert_eq!(ctx.stake_position.amount, 5_000_000);
    assert_eq!(ctx.stake_position.trust_weight, 22_250);
    assert_eq!(ctx.vault.total_staked, 10);
    assert_eq!(ctx.vault.updated_at, 0);
}

#[test]
fn vault_settings_change_one_by_one() {
    let mut ctx = UpdateVault { vault: vault(100), authority: addr(1) };
    assert_eq!(
        update_vault_config(&mut ctx, Some(5), None, None, 200),
        Err(TokenStakingError::UnauthorizedAuthority)
    );
    ctx.authority = addr(9);
    assert_eq!(update_vault_config(&mut ctx, None, None, None, 200), Ok(()));
    assert_eq!(ctx.vault.updated_at, 200);
    assert_eq!(ctx.vault.min_stake_amount, 1_000_000);
    assert_eq!(update_vault_config(&mut ctx, Some(0), None, None, 201), Ok(()));
    assert_eq!(ctx.vault.min_stake_amount, 1);
    assert_eq!(update_vault_config(&mut ctx, Some(77), Some(DAY), Some(500), 202), Ok(()));
    assert_eq!(ctx.vault.min_stake_amount, 77);
    assert_eq!(ctx.vault.lock_period_seconds, DAY);
    assert_eq!(ctx.vault.weight_multiplier, 500);
    assert_eq!(
        update_vault_config(&mut ctx, Some(88), Some(0), Some(5), 203),
        Err(TokenStakingError::InvalidLockPeriod)
    );
    assert_eq!(
        update_vault_config(&mut ctx, Some(88), Some(5), Some(5), 203),
        Err(TokenStakingError::InvalidWeightMultiplier)
    );
    assert_eq!(
        update_vault_config(&mut ctx, Some(88), None, Some(1_001), 203),
        Err(TokenStakingError::InvalidWeightMultiplier)
    );
    assert_eq!(ctx.vault.min_stake_amount, 77);
    assert_eq!(ctx.vault.lock_period_seconds, DAY);
    assert_eq!(ctx.vault.weight_multiplier, 500);
    assert_eq!(ctx.vault.updated_at, 202);
}

#[test]
fn vault_pause_and_handover() {
    let mut ctx = UpdateVault { vault: vault(100), authority: addr(1) };
    assert_eq!(pause_vault(&mut ctx, 300), Err(TokenStakingError::UnauthorizedAuthority));
    assert_eq!(unpause_vault(&mut ctx, 300), Err(TokenStakingError::UnauthorizedAuthority));
    ctx.authority = addr(9);
    assert_eq!(pause_vault(&mut ctx, 300), Ok(()));
    assert!(!ctx.vault.is_active);
    assert_eq!(ctx.vault.updated_at, 300);
    assert_eq!(unpause_vault(&mut ctx, 301), Ok(()));
    assert!(ctx.vault.is_active);
    assert_eq!(ctx.vault.updated_at, 301);
    let mut hand = TransferVaultAuthority { vault: ctx.vault, authority: addr(1), new_authority: addr(2) };
    assert_eq!(transfer_authority(&mut hand, 400), Err(TokenStakingError::UnauthorizedAuthority));
    assert_eq!(hand.vault.authority, addr(9));
    hand.authority = addr(9);
    assert_eq!(transfer_authority(&mut hand, 400), Ok(()));
    assert_eq!(hand.vault.authority, addr(2));
    assert_eq!(hand.vault.updated_at, 400);
}
