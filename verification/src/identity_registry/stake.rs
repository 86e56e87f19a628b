//! The collateral ledger: staking, unstaking and slashing against the pool.
//!
//! Each operation works on the agent's position and on the pool together. It
//! either commits the whole change or reports an error and changes nothing.

use vstd::prelude::*;
use crate::address::Address;
use crate::identity_registry::state::{
    lemma_slash_amount_bounds, slash_amount, AgentIdentity, StakingPool, MIN_STAKE_AMOUNT,
    STAKE_UNLOCK_PERIOD,
};

verus! {

/// Why a staking operation was refused.
#[derive(Clone, Copy, Debug, PartialEq, Eq, Structural)]
pub enum StakingError {
    BelowMinimumStake,
    StakeLocked,
    InsufficientStake,
    UnauthorizedAgent,
    UnauthorizedSlash,
    StakingPaused,
    InvalidSlashSeverity,
    NothingToSlash,
    ArithmeticOverflow,
}

/// A counter that stops at its ceiling instead of wrapping.
pub open spec fn saturating_inc_u64(n: u64) -> u64 {
    if n == u64::MAX { n } else { (n + 1) as u64 }
}

/// A counter that stops at its ceiling instead of wrapping.
pub open spec fn saturating_inc_u32(n: u32) -> u32 {
    if n == u32::MAX { n } else { (n + 1) as u32 }
}

/// A counter that stops at zero instead of wrapping.
pub open spec fn saturating_dec_u32(n: u32) -> u32 {
    if n == 0 { n } else { (n - 1) as u32 }
}

/// The smallest stake the pool accepts: its own minimum, but never less than
/// the registry's.
pub open spec fn effective_min_stake(pool: StakingPool) -> u64 {
    if pool.min_stake_amount >= MIN_STAKE_AMOUNT { pool.min_stake_amount } else { MIN_STAKE_AMOUNT }
}

// ---------------------------------------------------------------------------
// Stake
// ---------------------------------------------------------------------------

/// What a stake touches: the agent's position, the pool, who signed, and the
/// two custody balances between which the collateral moves.
#[derive(Clone, Debug)]
pub struct StakeCollateral {
    pub agent_identity: AgentIdentity,
    pub staking_pool: StakingPool,
    /// The signer.
    pub agent: Address,
    /// Balance of the agent's custody account.
    pub agent_lamports: u64,
    /// Balance of the pool's custody account.
    pub pool_lamports: u64,
}

/// The first reason, if any, for which a stake is refused.
pub open spec fn stake_rejection(ctx: StakeCollateral, amount: u64, now: i64) -> Option<
    StakingError,
> {
    if ctx.agent_identity.agent_address != ctx.agent {
        Some(StakingError::UnauthorizedAgent)
    } else if ctx.staking_pool.is_paused {
        Some(StakingError::StakingPaused)
    } else if amount < effective_min_stake(ctx.staking_pool) {
        Some(StakingError::BelowMinimumStake)
    } else if ctx.agent_lamports < amount || ctx.pool_lamports + amount > u64::MAX
        || ctx.agent_identity.staked_amount + amount > u64::MAX || now
        + ctx.staking_pool.unlock_period > i64::MAX || now + ctx.staking_pool.unlock_period
        < i64::MIN || ctx.staking_pool.total_staked + amount > u64::MAX {
        Some(StakingError::ArithmeticOverflow)
    } else {
        None
    }
}

/// The records after an accepted stake: the amount leaves the agent's custody
/// for the pool's and joins the position and the pool's total, the lock
/// starts anew from `now`, and a position that was empty counts as one more
/// staker.
pub open spec fn stake_effect(ctx: StakeCollateral, amount: u64, now: i64) -> StakeCollateral {
    StakeCollateral {
        agent_identity: AgentIdentity {
            staked_amount: (ctx.agent_identity.staked_amount + amount) as u64,
            stake_unlock_timestamp: (now + ctx.staking_pool.unlock_period) as i64,
            last_active_timestamp: now,
            activity_count: saturating_inc_u64(ctx.agent_identity.activity_count),
            ..ctx.agent_identity
        },
        staking_pool: StakingPool {
            total_staked: (ctx.staking_pool.total_staked + amount) as u64,
            total_stakers: if ctx.agent_identity.staked_amount == 0 {
                saturating_inc_u32(ctx.staking_pool.total_stakers)
            } else {
                ctx.staking_pool.total_stakers
            },
            ..ctx.staking_pool
        },
        agent_lamports: (ctx.agent_lamports - amount) as u64,
        pool_lamports: (ctx.pool_lamports + amount) as u64,
        ..ctx
    }
}

/// Moves `amount` from the signer's custody into the pool as collateral, and
/// returns the signer's new staked balance.
pub fn stake_collateral(ctx: &mut StakeCollateral, amount: u64, now: i64) -> (r: Result<
    u64,
    StakingError,
>)
    ensures
        match r {
            Ok(balance) => {
                &&& stake_rejection(*old(ctx), amount, now) is None
                &&& *final(ctx) == stake_effect(*old(ctx), amount, now)
                &&& balance == old(ctx).agent_identity.staked_amount + amount
            },
            Err(e) => {
                &&& stake_rejection(*old(ctx), amount, now) == Some(e)
                &&& *final(ctx) == *old(ctx)
            },
        },
{
    if !ctx.agent_identity.agent_address.equals(&ctx.agent) {
        return Err(StakingError::UnauthorizedAgent);
    }
    if ctx.staking_pool.is_paused {
        return Err(StakingError::StakingPaused);
    }
    let effective_min: u64 = if ctx.staking_pool.min_stake_amount >= MIN_STAKE_AMOUNT {
        ctx.staking_pool.min_stake_amount
    } else {
        MIN_STAKE_AMOUNT
    };
    if amount < effective_min {
        return Err(StakingError::BelowMinimumStake);
    }
    let was_staker: bool = ctx.agent_identity.staked_amount > 0;
    let agent_balance: u64 = match ctx.agent_lamports.checked_sub(amount) {
        Some(v) => v,
        None => { return Err(StakingError::ArithmeticOverflow); },
    };
    let pool_balance: u64 = match ctx.pool_lamports.checked_add(amount) {
        Some(v) => v,
        None => { return Err(StakingError::ArithmeticOverflow); },
    };
    let new_balance: u64 = match ctx.agent_identity.staked_amount.checked_add(amount) {
        Some(v) => v,
        None => { return Err(StakingError::ArithmeticOverflow); },
    };
    let unlock_at: i64 = match now.checked_add(ctx.staking_pool.unlock_period) {
        Some(v) => v,
        None => { return Err(StakingError::ArithmeticOverflow); },
    };
    let new_total: u64 = match ctx.staking_pool.total_staked.checked_add(amount) {
        Some(v) => v,
        None => { return Err(StakingError::ArithmeticOverflow); },
    };
    ctx.agent_lamports = agent_balance;
    ctx.pool_lamports = pool_balance;
    ctx.agent_identity.staked_amount = new_balance;
    ctx.agent_identity.stake_unlock_timestamp = unlock_at;
    ctx.agent_identity.last_active_timestamp = now;
    ctx.agent_identity.activity_count = ctx.agent_identity.activity_count.saturating_add(1);
    ctx.staking_pool.total_staked = new_total;
    if !was_staker {
        ctx.staking_pool.total_stakers = ctx.staking_pool.total_stakers.saturating_add(1);
    }
    Ok(new_balance)
}

// ---------------------------------------------------------------------------
// Unstake
// ---------------------------------------------------------------------------

/// What an unstake touches: the position, the pool, who signed, and the two
/// custody balances between which the collateral moves.
#[derive(Clone, Debug)]
pub struct UnstakeCollateral {
    pub agent_identity: AgentIdentity,
    pub staking_pool: StakingPool,
    /// The signer.
    pub agent: Address,
    /// Balance of the pool's custody account.
    pub pool_lamports: u64,
    /// Balance of the agent's custody account.
    pub agent_lamports: u64,
}

/// The first reason, if any, for which an unstake is refused. A position
/// without a lock (unlock time 0) is locked at no time from 0 on.
pub open spec fn unstake_rejection(ctx: UnstakeCollateral, amount: u64, now: i64) -> Option<
    StakingError,
> {
    if ctx.agent_identity.agent_address != ctx.agent {
        Some(StakingError::UnauthorizedAgent)
    } else if now < ctx.agent_identity.stake_unlock_timestamp {
        Some(StakingError::StakeLocked)
    } else if amount > ctx.agent_identity.staked_amount {
        Some(StakingError::InsufficientStake)
    } else if ctx.pool_lamports < amount || ctx.agent_lamports + amount > u64::MAX
        || ctx.staking_pool.total_staked < amount {
        Some(StakingError::ArithmeticOverflow)
    } else {
        None
    }
}

/// The records after an accepted unstake: the amount leaves the position, the
/// pool and the pool's custody for the agent's custody; a position that
/// returns to zero loses its lock and counts as one staker fewer.
pub open spec fn unstake_effect(ctx: UnstakeCollateral, amount: u64, now: i64)
    -> UnstakeCollateral {
    let remaining = (ctx.agent_identity.staked_amount - amount) as u64;
    UnstakeCollateral {
        agent_identity: AgentIdentity {
            staked_amount: remaining,
            stake_unlock_timestamp: if remaining == 0 {
                0
            } else {
                ctx.agent_identity.stake_unlock_timestamp
            },
            last_active_timestamp: now,
            activity_count: saturating_inc_u64(ctx.agent_identity.activity_count),
            ..ctx.agent_identity
        },
        staking_pool: StakingPool {
            total_staked: (ctx.staking_pool.total_staked - amount) as u64,
            total_stakers: if remaining == 0 && ctx.agent_identity.staked_amount > 0 {
                saturating_dec_u32(ctx.staking_pool.total_stakers)
            } else {
                ctx.staking_pool.total_stakers
            },
            ..ctx.staking_pool
        },
        pool_lamports: (ctx.pool_lamports - amount) as u64,
        agent_lamports: (ctx.agent_lamports + amount) as u64,
        ..ctx
    }
}

/// Withdraws `amount` of the signer's collateral once the lock has run out,
/// and returns the balance that remains.
pub fn unstake_collateral(ctx: &mut UnstakeCollateral, amount: u64, now: i64) -> (r: Result<
    u64,
    StakingError,
>)
    ensures
        match r {
            Ok(remaining) => {
                &&& unstake_rejection(*old(ctx), amount, now) is None
                &&& *final(ctx) == unstake_effect(*old(ctx), amount, now)
                &&& remaining == old(ctx).agent_identity.staked_amount - amount
            },
            Err(e) => {
                &&& unstake_rejection(*old(ctx), amount, now) == Some(e)
                &&& *final(ctx) == *old(ctx)
            },
        },
{
    if !ctx.agent_identity.agent_address.equals(&ctx.agent) {
        return Err(StakingError::UnauthorizedAgent);
    }
    if now < ctx.agent_identity.stake_unlock_timestamp {
        return Err(StakingError::StakeLocked);
    }
    let was_staker: bool = ctx.agent_identity.staked_amount > 0;
    let remaining: u64 = match ctx.agent_identity.staked_amount.checked_sub(amount) {
        Some(v) => v,
        None => { return Err(StakingError::InsufficientStake); },
    };
    let pool_balance: u64 = match ctx.pool_lamports.checked_sub(amount) {
        Some(v) => v,
        None => { return Err(StakingError::ArithmeticOverflow); },
    };
    let agent_balance: u64 = match ctx.agent_lamports.checked_add(amount) {
        Some(v) => v,
        None => { return Err(StakingError::ArithmeticOverflow); },
    };
    let new_total: u64 = match ctx.staking_pool.total_staked.checked_sub(amount) {
        Some(v) => v,
        None => { return Err(StakingError::ArithmeticOverflow); },
    };
    ctx.pool_lamports = pool_balance;
    ctx.agent_lamports = agent_balance;
    ctx.agent_identity.staked_amount = remaining;
    if remaining == 0 {
        ctx.agent_identity.stake_unlock_timestamp = 0;
        if was_staker {
            ctx.staking_pool.total_stakers = ctx.staking_pool.total_stakers.saturating_sub(1);
        }
    }
    ctx.agent_identity.last_active_timestamp = now;
    ctx.agent_identity.activity_count = ctx.agent_identity.activity_count.saturating_add(1);
    ctx.staking_pool.total_staked = new_total;
    Ok(remaining)
}

// ---------------------------------------------------------------------------
// Slash
// ---------------------------------------------------------------------------

/// What a slash touches: the position, the pool, the authority that signed,
/// and the two custody balances between which the forfeit moves.
#[derive(Clone, Debug)]
pub struct SlashAgent {
    pub agent_identity: AgentIdentity,
    pub staking_pool: StakingPool,
    /// The signer.
    pub authority: Address,
    /// Balance of the pool's custody account.
    pub pool_lamports: u64,
    /// Balance of the treasury that receives the forfeit.
    pub treasury_lamports: u64,
}

/// The forfeit that a slash of the given severity takes from the position.
pub open spec fn slash_forfeit(ctx: SlashAgent, violation_severity_bps: u16) -> u64 {
    slash_amount(ctx.agent_identity.staked_amount as nat, violation_severity_bps as nat) as u64
}

/// The first reason, if any, for which a slash is refused.
pub open spec fn slash_rejection(ctx: SlashAgent, violation_severity_bps: u16) -> Option<
    StakingError,
> {
    let amount = slash_forfeit(ctx, violation_severity_bps);
    if ctx.staking_pool.authority != ctx.authority {
        Some(StakingError::UnauthorizedSlash)
    } else if violation_severity_bps > 10000 {
        Some(StakingError::InvalidSlashSeverity)
    } else if amount == 0 {
        Some(StakingError::NothingToSlash)
    } else if amount > ctx.agent_identity.staked_amount {
        Some(StakingError::InsufficientStake)
    } else if ctx.pool_lamports < amount || ctx.treasury_lamports + amount > u64::MAX
        || ctx.agent_identity.total_slashed + amount > u64::MAX || ctx.staking_pool.total_staked
        < amount || ctx.staking_pool.total_slashed + amount > u64::MAX {
        Some(StakingError::ArithmeticOverflow)
    } else {
        None
    }
}

/// The records after an accepted slash: the forfeit leaves the position, the
/// pool and the pool's custody for the treasury, and both slash histories
/// grow by it.
pub open spec fn slash_effect(ctx: SlashAgent, violation_severity_bps: u16) -> SlashAgent {
    let amount = slash_forfeit(ctx, violation_severity_bps);
    let remaining = (ctx.agent_identity.staked_amount - amount) as u64;
    SlashAgent {
        agent_identity: AgentIdentity {
            staked_amount: remaining,
            slash_count: saturating_inc_u32(ctx.agent_identity.slash_count),
            total_slashed: (ctx.agent_identity.total_slashed + amount) as u64,
            ..ctx.agent_identity
        },
        staking_pool: StakingPool {
            total_staked: (ctx.staking_pool.total_staked - amount) as u64,
            total_slashed: (ctx.staking_pool.total_slashed + amount) as u64,
            total_stakers: if remaining == 0 {
                saturating_dec_u32(ctx.staking_pool.total_stakers)
            } else {
                ctx.staking_pool.total_stakers
            },
            ..ctx.staking_pool
        },
        pool_lamports: (ctx.pool_lamports - amount) as u64,
        treasury_lamports: (ctx.treasury_lamports + amount) as u64,
        ..ctx
    }
}

/// Takes from the position the forfeit that the quadratic curve gives for the
/// severity, and returns it. The reason is for the caller's record only; the
/// ledger does not read it. Only the pool's authority may slash.
pub fn slash_agent(ctx: &mut SlashAgent, violation_severity_bps: u16, _reason: String) -> (r:
    Result<u64, StakingError>)
    ensures
        match r {
            Ok(amount) => {
                &&& slash_rejection(*old(ctx), violation_severity_bps) is None
                &&& *final(ctx) == slash_effect(*old(ctx), violation_severity_bps)
                &&& amount == slash_forfeit(*old(ctx), violation_severity_bps)
                &&& 0 < amount <= old(ctx).agent_identity.staked_amount / 2
            },
            Err(e) => {
                &&& slash_rejection(*old(ctx), violation_severity_bps) == Some(e)
                &&& e != StakingError::InsufficientStake
                &&& *final(ctx) == *old(ctx)
            },
        },
{
    if !ctx.staking_pool.authority.equals(&ctx.authority) {
        return Err(StakingError::UnauthorizedSlash);
    }
    if violation_severity_bps > 10000 {
        return Err(StakingError::InvalidSlashSeverity);
    }
    let amount: u64 = ctx.agent_identity.calculate_slash_amount(violation_severity_bps);
    if amount == 0 {
        return Err(StakingError::NothingToSlash);
    }
    let remaining: u64 = ctx.agent_identity.staked_amount - amount;
    let pool_balance: u64 = match ctx.pool_lamports.checked_sub(amount) {
        Some(v) => v,
        None => { return Err(StakingError::ArithmeticOverflow); },
    };
    let treasury_balance: u64 = match ctx.treasury_lamports.checked_add(amount) {
        Some(v) => v,
        None => { return Err(StakingError::ArithmeticOverflow); },
    };
    let slashed_so_far: u64 = match ctx.agent_identity.total_slashed.checked_add(amount) {
        Some(v) => v,
        None => { return Err(StakingError::ArithmeticOverflow); },
    };
    let new_total: u64 = match ctx.staking_pool.total_staked.checked_sub(amount) {
        Some(v) => v,
        None => { return Err(StakingError::ArithmeticOverflow); },
    };
    let pool_slashed: u64 = match ctx.staking_pool.total_slashed.checked_add(amount) {
        Some(v) => v,
        None => { return Err(StakingError::ArithmeticOverflow); },
    };
    ctx.pool_lamports = pool_balance;
    ctx.treasury_lamports = treasury_balance;
    ctx.agent_identity.staked_amount = remaining;
    ctx.agent_identity.slash_count = ctx.agent_identity.slash_count.saturating_add(1);
    ctx.agent_identity.total_slashed = slashed_so_far;
    ctx.staking_pool.total_staked = new_total;
    ctx.staking_pool.total_slashed = pool_slashed;
    Ok(amount)
}

// ---------------------------------------------------------------------------
// Pool set-up and pause
// ---------------------------------------------------------------------------

/// What setting up the pool touches: the fresh pool record and who signed.
#[derive(Clone, Debug)]
pub struct InitializeStakingPool {
    pub staking_pool: StakingPool,
    /// The signer, who becomes the pool's authority.
    pub authority: Address,
}

/// Sets up an empty, running pool with the registry's defaults, owned by the
/// signer.
pub fn initialize_staking_pool(ctx: &mut InitializeStakingPool, bump: u8)
    ensures
        final(ctx).authority == old(ctx).authority,
        final(ctx).staking_pool == (StakingPool {
            authority: old(ctx).authority,
            total_staked: 0,
            total_stakers: 0,
            total_slashed: 0,
            min_stake_amount: MIN_STAKE_AMOUNT,
            unlock_period: STAKE_UNLOCK_PERIOD,
            is_paused: false,
            bump,
        }),
{
    ctx.staking_pool.authority = ctx.authority;
    ctx.staking_pool.total_staked = 0;
    ctx.staking_pool.total_stakers = 0;
    ctx.staking_pool.total_slashed = 0;
    ctx.staking_pool.min_stake_amount = MIN_STAKE_AMOUNT;
    ctx.staking_pool.unlock_period = STAKE_UNLOCK_PERIOD;
    ctx.staking_pool.is_paused = false;
    ctx.staking_pool.bump = bump;
}

/// What pausing touches: the pool and who signed.
#[derive(Clone, Debug)]
pub struct PauseStaking {
    pub staking_pool: StakingPool,
    /// The signer.
    pub authority: Address,
}

/// Stops new stakes. Only the pool's authority may.
pub fn pause_staking(ctx: &mut PauseStaking) -> (r: Result<(), StakingError>)
    ensures
        r is Ok <==> old(ctx).staking_pool.authority == old(ctx).authority,
        r is Err ==> r == Err::<(), StakingError>(StakingError::UnauthorizedSlash) && *final(ctx)
            == *old(ctx),
        r is Ok ==> *final(ctx) == (PauseStaking {
            staking_pool: StakingPool { is_paused: true, ..old(ctx).staking_pool },
            ..*old(ctx)
        }),
{
    if !ctx.staking_pool.authority.equals(&ctx.authority) {
        return Err(StakingError::UnauthorizedSlash);
    }
    ctx.staking_pool.is_paused = true;
    Ok(())
}

/// Lets stakes in again. Only the pool's authority may.
pub fn unpause_staking(ctx: &mut PauseStaking) -> (r: Result<(), StakingError>)
    ensures
        r is Ok <==> old(ctx).staking_pool.authority == old(ctx).authority,
        r is Err ==> r == Err::<(), StakingError>(StakingError::UnauthorizedSlash) && *final(ctx)
            == *old(ctx),
        r is Ok ==> *final(ctx) == (PauseStaking {
            staking_pool: StakingPool { is_paused: false, ..old(ctx).staking_pool },
            ..*old(ctx)
        }),
{
    if !ctx.staking_pool.authority.equals(&ctx.authority) {
        return Err(StakingError::UnauthorizedSlash);
    }
    ctx.staking_pool.is_paused = false;
    Ok(())
}

// ---------------------------------------------------------------------------
// The pool against its positions
// ---------------------------------------------------------------------------

/// The collateral that a run of positions holds together.
pub open spec fn total_collateral(positions: Seq<AgentIdentity>) -> int
    decreases positions.len(),
{
    if positions.len() == 0 {
        0
    } else {
        total_collateral(positions.drop_last()) + positions.last().staked_amount
    }
}

/// The pool's running total is the collateral of the positions under it.
pub open spec fn pool_matches_positions(pool: StakingPool, positions: Seq<AgentIdentity>) -> bool {
    pool.total_staked == total_collateral(positions)
}

/// Replacing one position changes the collateral of the run by the
/// difference between the two balances.
pub proof fn lemma_total_collateral_update(
    positions: Seq<AgentIdentity>,
    i: int,
    position: AgentIdentity,
)
    requires
        0 <= i < positions.len(),
    ensures
        total_collateral(positions.update(i, position)) == total_collateral(positions)
            - positions[i].staked_amount + position.staked_amount,
    decreases positions.len(),
{
    let updated = positions.update(i, position);
    if i == positions.len() - 1 {
        assert(updated.drop_last() =~= positions.drop_last());
    } else {
        lemma_total_collateral_update(positions.drop_last(), i, position);
        assert(updated.drop_last() =~= positions.drop_last().update(i, position));
    }
}

/// A pool that was just set up matches the empty run of positions, and a new
/// position without collateral joins without disturbing the match.
pub proof fn lemma_empty_position_joins(
    pool: StakingPool,
    positions: Seq<AgentIdentity>,
    newcomer: AgentIdentity,
)
    requires
        newcomer.staked_amount == 0,
    ensures
        pool.total_staked == 0 ==> pool_matches_positions(pool, Seq::empty()),
        pool_matches_positions(pool, positions) ==> pool_matches_positions(
            pool,
            positions.push(newcomer),
        ),
{
    assert(positions.push(newcomer).drop_last() =~= positions);
}

/// An accepted stake keeps the pool's total equal to the collateral of its
/// positions.
pub proof fn lemma_stake_keeps_pool_total(
    positions: Seq<AgentIdentity>,
    i: int,
    ctx: StakeCollateral,
    amount: u64,
    now: i64,
)
    requires
        0 <= i < positions.len(),
        positions[i] == ctx.agent_identity,
        pool_matches_positions(ctx.staking_pool, positions),
        stake_rejection(ctx, amount, now) is None,
    ensures
        pool_matches_positions(
            stake_effect(ctx, amount, now).staking_pool,
            positions.update(i, stake_effect(ctx, amount, now).agent_identity),
        ),
{
    lemma_total_collateral_update(positions, i, stake_effect(ctx, amount, now).agent_identity);
}

/// An accepted unstake keeps the pool's total equal to the collateral of its
/// positions.
pub proof fn lemma_unstake_keeps_pool_total(
    positions: Seq<AgentIdentity>,
    i: int,
    ctx: UnstakeCollateral,
    amount: u64,
    now: i64,
)
    requires
        0 <= i < positions.len(),
        positions[i] == ctx.agent_identity,
        pool_matches_positions(ctx.staking_pool, positions),
        unstake_rejection(ctx, amount, now) is None,
    ensures
        pool_matches_positions(
            unstake_effect(ctx, amount, now).staking_pool,
            positions.update(i, unstake_effect(ctx, amount, now).agent_identity),
        ),
{
    lemma_total_collateral_update(positions, i, unstake_effect(ctx, amount, now).agent_identity);
}

/// An accepted slash keeps the pool's total equal to the collateral of its
/// positions, and never takes the last unit of a stake.
pub proof fn lemma_slash_keeps_pool_total(
    positions: Seq<AgentIdentity>,
    i: int,
    ctx: SlashAgent,
    violation_severity_bps: u16,
)
    requires
        0 <= i < positions.len(),
        positions[i] == ctx.agent_identity,
        pool_matches_positions(ctx.staking_pool, positions),
        slash_rejection(ctx, violation_severity_bps) is None,
    ensures
        pool_matches_positions(
            slash_effect(ctx, violation_severity_bps).staking_pool,
            positions.update(i, slash_effect(ctx, violation_severity_bps).agent_identity),
        ),
        slash_effect(ctx, violation_severity_bps).agent_identity.staked_amount > 0,
        slash_effect(ctx, violation_severity_bps).staking_pool.total_stakers
            == ctx.staking_pool.total_stakers,
{
    lemma_slash_amount_bounds(
        ctx.agent_identity.staked_amount as nat,
        violation_severity_bps as nat,
    );
    lemma_total_collateral_update(
        positions,
        i,
        slash_effect(ctx, violation_severity_bps).agent_identity,
    );
}

/// Collateral is neither made nor lost: a stake and an unstake leave the two
/// custody balances together as they were, a slash the pool's custody and
/// the treasury; and a pool custody that holds exactly the pool's total goes
/// on doing so.
pub proof fn lemma_custody_is_conserved(
    stake: StakeCollateral,
    unstake: UnstakeCollateral,
    slash: SlashAgent,
    amount: u64,
    violation_severity_bps: u16,
    now: i64,
)
    ensures
        stake_rejection(stake, amount, now) is None ==> ({
            let after = stake_effect(stake, amount, now);
            &&& after.agent_lamports + after.pool_lamports == stake.agent_lamports
                + stake.pool_lamports
            &&& stake.pool_lamports == stake.staking_pool.total_staked ==> after.pool_lamports
                == after.staking_pool.total_staked
        }),
        unstake_rejection(unstake, amount, now) is None ==> ({
            let after = unstake_effect(unstake, amount, now);
            &&& after.agent_lamports + after.pool_lamports == unstake.agent_lamports
                + unstake.pool_lamports
            &&& unstake.pool_lamports == unstake.staking_pool.total_staked ==> after.pool_lamports
                == after.staking_pool.total_staked
        }),
        slash_rejection(slash, violation_severity_bps) is None ==> ({
            let after = slash_effect(slash, violation_severity_bps);
            &&& after.treasury_lamports + after.pool_lamports == slash.treasury_lamports
                + slash.pool_lamports
            &&& slash.pool_lamports == slash.staking_pool.total_staked ==> after.pool_lamports
                == after.staking_pool.total_staked
        }),
{
    lemma_slash_amount_bounds(
        slash.agent_identity.staked_amount as nat,
        violation_severity_bps as nat,
    );
}

/// The number of positions in a run that hold collateral.
pub open spec fn staker_count(positions: Seq<AgentIdentity>) -> int
    decreases positions.len(),
{
    if positions.len() == 0 {
        0
    } else {
        staker_count(positions.drop_last()) + if positions.last().staked_amount > 0 {
            1int
        } else {
            0int
        }
    }
}

/// The pool's count of stakers is the number of positions that hold collateral.
pub open spec fn pool_counts_stakers(pool: StakingPool, positions: Seq<AgentIdentity>) -> bool {
    pool.total_stakers == staker_count(positions)
}

/// Replacing one position changes the number of stakers by whether the old
/// and the new position hold collateral; the number is never above the
/// length of the run.
pub proof fn lemma_staker_count_update(
    positions: Seq<AgentIdentity>,
    i: int,
    position: AgentIdentity,
)
    requires
        0 <= i < positions.len(),
    ensures
        staker_count(positions.update(i, position)) == staker_count(positions) - (if positions[i]
            .staked_amount > 0 {
            1int
        } else {
            0int
        }) + (if position.staked_amount > 0 {
            1int
        } else {
            0int
        }),
        0 <= staker_count(positions) <= positions.len(),
    decreases positions.len(),
{
    let updated = positions.update(i, position);
    lemma_staker_count_bounds(positions.drop_last());
    if i == positions.len() - 1 {
        assert(updated.drop_last() =~= positions.drop_last());
    } else {
        lemma_staker_count_update(positions.drop_last(), i, position);
        assert(updated.drop_last() =~= positions.drop_last().update(i, position));
    }
}

/// There are never more stakers than positions.
pub proof fn lemma_staker_count_bounds(positions: Seq<AgentIdentity>)
    ensures
        0 <= staker_count(positions) <= positions.len(),
    decreases positions.len(),
{
    if positions.len() > 0 {
        lemma_staker_count_bounds(positions.drop_last());
    }
}

/// An accepted stake, unstake or slash keeps the pool's count of stakers
/// equal to the number of positions that hold collateral, as long as the
/// positions are few enough to be counted.
pub proof fn lemma_operations_keep_staker_count(
    positions: Seq<AgentIdentity>,
    i: int,
    stake: StakeCollateral,
    unstake: UnstakeCollateral,
    slash: SlashAgent,
    amount: u64,
    violation_severity_bps: u16,
    now: i64,
)
    requires
        0 <= i < positions.len() < u32::MAX,
        positions[i] == stake.agent_identity,
        positions[i] == unstake.agent_identity,
        positions[i] == slash.agent_identity,
        pool_counts_stakers(stake.staking_pool, positions),
        pool_counts_stakers(unstake.staking_pool, positions),
        pool_counts_stakers(slash.staking_pool, positions),
    ensures
        stake_rejection(stake, amount, now) is None ==> pool_counts_stakers(
            stake_effect(stake, amount, now).staking_pool,
            positions.update(i, stake_effect(stake, amount, now).agent_identity),
        ),
        unstake_rejection(unstake, amount, now) is None ==> pool_counts_stakers(
            unstake_effect(unstake, amount, now).staking_pool,
            positions.update(i, unstake_effect(unstake, amount, now).agent_identity),
        ),
        slash_rejection(slash, violation_severity_bps) is None ==> pool_counts_stakers(
            slash_effect(slash, violation_severity_bps).staking_pool,
            positions.update(i, slash_effect(slash, violation_severity_bps).agent_identity),
        ),
{
    lemma_staker_count_update(positions, i, stake_effect(stake, amount, now).agent_identity);
    lemma_staker_count_update(positions, i, unstake_effect(unstake, amount, now).agent_identity);
    lemma_staker_count_bounds(
        positions.update(i, unstake_effect(unstake, amount, now).agent_identity),
    );
    lemma_staker_count_update(
        positions,
        i,
        slash_effect(slash, violation_severity_bps).agent_identity,
    );
    lemma_slash_amount_bounds(
        slash.agent_identity.staked_amount as nat,
        violation_severity_bps as nat,
    );
}

/// Staking again never shortens the lock: after a stake at `first_time`, a
/// further stake at any later time leaves the position locked at least as
/// long as it was, and restarts the pool's full period from that time.
pub proof fn lemma_restake_never_shortens_lock(
    ctx: StakeCollateral,
    first_amount: u64,
    first_time: i64,
    second_amount: u64,
    second_time: i64,
)
    requires
        first_time <= second_time,
        stake_rejection(ctx, first_amount, first_time) is None,
        stake_rejection(stake_effect(ctx, first_amount, first_time), second_amount, second_time)
            is None,
    ensures
        ({
            let once = stake_effect(ctx, first_amount, first_time);
            let twice = stake_effect(once, second_amount, second_time);
            &&& twice.agent_identity.stake_unlock_timestamp
                >= once.agent_identity.stake_unlock_timestamp
            &&& twice.agent_identity.stake_unlock_timestamp - second_time
                == ctx.staking_pool.unlock_period
        }),
{
}

/// A stake never shortens a lock that has no longer to run than the pool's
/// period: the lock is reset to the full period from `now`, whatever it was.
pub proof fn lemma_stake_never_shortens_lock(ctx: StakeCollateral, amount: u64, now: i64)
    requires
        stake_rejection(ctx, amount, now) is None,
        ctx.agent_identity.stake_unlock_timestamp - now <= ctx.staking_pool.unlock_period,
    ensures
        stake_effect(ctx, amount, now).agent_identity.stake_unlock_timestamp
            >= ctx.agent_identity.stake_unlock_timestamp,
        stake_effect(ctx, amount, now).agent_identity.stake_unlock_timestamp == now
            + ctx.staking_pool.unlock_period,
{
}

/// The unstake that a signer can ask for right after a stake: the records
/// that the stake left, seen as an unstake's.
pub open spec fn unstake_after(staked: StakeCollateral) -> UnstakeCollateral {
    UnstakeCollateral {
        agent_identity: staked.agent_identity,
        staking_pool: staked.staking_pool,
        agent: staked.agent,
        pool_lamports: staked.pool_lamports,
        agent_lamports: staked.agent_lamports,
    }
}

/// What was staked can be taken back once the pool's period has run: after an
/// accepted stake at `staked_at`, an unstake of the same amount at any time
/// from `staked_at + pool.unlock_period` on is accepted, and it restores the
/// position's balance, the pool's total, both custody balances and the slash
/// histories; the count of stakers too, unless it stood at its ceiling.
pub proof fn lemma_stake_then_unstake_restores(
    ctx: StakeCollateral,
    amount: u64,
    staked_at: i64,
    now: i64,
)
    requires
        stake_rejection(ctx, amount, staked_at) is None,
        now >= staked_at + ctx.staking_pool.unlock_period,
    ensures
        ({
            let staked = unstake_after(stake_effect(ctx, amount, staked_at));
            let back = unstake_effect(staked, amount, now);
            &&& unstake_rejection(staked, amount, now) is None
            &&& back.agent_identity.staked_amount == ctx.agent_identity.staked_amount
            &&& back.staking_pool.total_staked == ctx.staking_pool.total_staked
            &&& back.pool_lamports == ctx.pool_lamports
            &&& back.agent_lamports == ctx.agent_lamports
            &&& back.agent_identity.slash_count == ctx.agent_identity.slash_count
            &&& back.agent_identity.total_slashed == ctx.agent_identity.total_slashed
            &&& back.staking_pool.total_slashed == ctx.staking_pool.total_slashed
            &&& ctx.staking_pool.total_stakers < u32::MAX ==> back.staking_pool.total_stakers
                == ctx.staking_pool.total_stakers
        }),
{
}

} // verus!
