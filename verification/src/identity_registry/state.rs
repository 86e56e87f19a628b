//! Records of the identity registry: agent identities with their collateral,
//! the staking pool, and the pause and rate-limit configuration.

use vstd::prelude::*;
use crate::address::Address;

verus! {

/// Smallest stake the registry ever accepts, whatever the pool says.
pub const MIN_STAKE_AMOUNT: u64 = 100_000_000;

/// Lock period that a pool is set up with: 7 days.
pub const STAKE_UNLOCK_PERIOD: i64 = 7 * 24 * 60 * 60;

/// Largest share of a stake that one slash can take, in basis points.
pub const MAX_SLASH_BPS: u16 = 5000;

/// Basis points in a whole.
pub const BPS_DENOMINATOR: u64 = 10000;

/// An agent's identity together with its collateral position.
#[derive(Clone, Debug)]
pub struct AgentIdentity {
    /// The wallet that owns the identity.
    pub agent_address: Address,
    /// The asset that represents the identity.
    pub asset_address: Address,
    /// Where the off-chain metadata lives; at most 200 bytes.
    pub metadata_uri: String,
    pub registration_timestamp: i64,
    pub last_active_timestamp: i64,
    /// Number of interactions; saturates.
    pub activity_count: u64,
    pub is_active: bool,
    /// Collateral currently staked.
    pub staked_amount: u64,
    /// When the stake may be withdrawn; 0 while no lock is set.
    pub stake_unlock_timestamp: i64,
    /// Number of slashes suffered; saturates.
    pub slash_count: u32,
    /// Collateral lost to slashes so far.
    pub total_slashed: u64,
    pub bump: u8,
}

/// The share of a stake, in basis points, that a violation of the given
/// severity costs: the square of the severity, capped.
pub open spec fn slash_bps(severity_bps: nat) -> nat {
    let s = if severity_bps <= 10000 { severity_bps } else { 10000 };
    let squared = s * s / 10000;
    if squared <= MAX_SLASH_BPS as nat { squared } else { MAX_SLASH_BPS as nat }
}

/// The collateral that a violation of the given severity takes from a stake.
pub open spec fn slash_amount(staked: nat, severity_bps: nat) -> nat {
    staked * slash_bps(severity_bps) / 10000
}

/// The slashing share grows with the severity and never passes the cap.
pub proof fn lemma_slash_bps_monotonic(a: nat, b: nat)
    requires
        a <= b,
    ensures
        slash_bps(a) <= slash_bps(b),
        slash_bps(b) <= MAX_SLASH_BPS,
{
    let sa: nat = if a <= 10000 { a } else { 10000 };
    let sb: nat = if b <= 10000 { b } else { 10000 };
    assert(sa * sa <= sb * sb) by (nonlinear_arith)
        requires
            sa <= sb,
    ;
    assert(sa * sa / 10000 <= sb * sb / 10000) by (nonlinear_arith)
        requires
            sa * sa <= sb * sb,
    ;
}

/// A slash is non-decreasing in the severity.
pub proof fn lemma_slash_amount_monotonic(staked: nat, a: nat, b: nat)
    requires
        a <= b,
    ensures
        slash_amount(staked, a) <= slash_amount(staked, b),
{
    lemma_slash_bps_monotonic(a, b);
    let x = slash_bps(a);
    let y = slash_bps(b);
    assert(staked * x <= staked * y) by (nonlinear_arith)
        requires
            x <= y,
    ;
    assert(staked * x / 10000 <= staked * y / 10000) by (nonlinear_arith)
        requires
            staked * x <= staked * y,
    ;
}

/// A violation of no severity costs nothing; the worst violation costs the
/// capped share; and no slash takes more than half of the stake.
pub proof fn lemma_slash_amount_bounds(staked: nat, severity_bps: nat)
    ensures
        slash_amount(staked, 0) == 0,
        slash_amount(staked, 10000) == staked * (MAX_SLASH_BPS as nat) / 10000,
        slash_amount(staked, severity_bps) <= staked * (MAX_SLASH_BPS as nat) / 10000,
        2 * slash_amount(staked, severity_bps) <= staked,
{
    assert(0nat * 0nat / 10000 == 0) by (nonlinear_arith);
    assert(slash_bps(0) == 0);
    assert(staked * 0 == 0) by (nonlinear_arith);
    assert(10000nat * 10000nat / 10000 == 10000) by (nonlinear_arith);
    assert(slash_bps(10000) == 5000);
    lemma_slash_bps_monotonic(severity_bps, severity_bps);
    let x = slash_bps(severity_bps);
    assert(staked * x <= staked * 5000) by (nonlinear_arith)
        requires
            x <= 5000,
    ;
    assert(staked * x / 10000 <= staked * 5000 / 10000) by (nonlinear_arith)
        requires
            staked * x <= staked * 5000,
    ;
    assert(2 * (staked * 5000 / 10000) <= staked) by (nonlinear_arith);
}

impl AgentIdentity {
    /// Whether the stake reaches the registry's minimum.
    pub fn has_minimum_stake(&self) -> (enough: bool)
        ensures
            enough == (self.staked_amount >= MIN_STAKE_AMOUNT),
    {
        self.staked_amount >= MIN_STAKE_AMOUNT
    }

    /// Whether a lock is set and has run out. A position without a lock
    /// (unlock time 0) answers no, since it has nothing to unlock; an unstake
    /// goes by the unlock time alone and is not held back there.
    pub fn can_unlock_stake(&self, current_timestamp: i64) -> (unlocked: bool)
        ensures
            unlocked == (self.stake_unlock_timestamp > 0 && current_timestamp
                >= self.stake_unlock_timestamp),
    {
        self.stake_unlock_timestamp > 0 && current_timestamp >= self.stake_unlock_timestamp
    }

    /// The collateral that a violation of the given severity takes from this
    /// stake, on the quadratic curve.
    pub fn calculate_slash_amount(&self, violation_severity_bps: u16) -> (amount: u64)
        ensures
            amount == slash_amount(self.staked_amount as nat, violation_severity_bps as nat),
            2 * amount <= self.staked_amount,
    {
        let severity: u64 = if violation_severity_bps <= 10000 {
            violation_severity_bps as u64
        } else {
            10000
        };
        assert(severity * severity <= 100_000_000) by (nonlinear_arith)
            requires
                severity <= 10000,
        ;
        let squared: u64 = severity * severity / BPS_DENOMINATOR;
        let bps: u64 = if squared <= MAX_SLASH_BPS as u64 {
            squared
        } else {
            MAX_SLASH_BPS as u64
        };
        let staked: u128 = self.staked_amount as u128;
        assert(staked * bps <= staked * 5000) by (nonlinear_arith)
            requires
                bps <= 5000,
        ;
        let scaled: u128 = staked * (bps as u128) / 10000;
        proof {
            lemma_slash_amount_bounds(self.staked_amount as nat, violation_severity_bps as nat);
        }
        scaled as u64
    }
}

/// The pool that holds every agent's collateral, with its running totals.
#[derive(Clone, Copy, Debug)]
pub struct StakingPool {
    /// Who may slash and pause.
    pub authority: Address,
    /// Collateral held for all agents together.
    pub total_staked: u64,
    /// Number of agents with a non-zero stake; saturates.
    pub total_stakers: u32,
    /// Collateral taken by slashes so far.
    pub total_slashed: u64,
    pub min_stake_amount: u64,
    /// Seconds for which every stake locks the position, counted from the
    /// time of the stake.
    pub unlock_period: i64,
    pub is_paused: bool,
    pub bump: u8,
}

/// Program-wide pause state and rate limit.
#[derive(Clone, Debug)]
pub struct ProgramConfig {
    pub admin: Address,
    pub is_paused: bool,
    /// When the pause began; 0 while running.
    pub paused_at: i64,
    pub pause_reason: String,
    /// Calls allowed per caller in one window.
    pub rate_limit_per_minute: u32,
    pub bump: u8,
}

/// One caller's rate-limit window.
#[derive(Clone, Copy, Debug)]
pub struct UserRateLimit {
    pub user: Address,
    pub window_start: i64,
    /// Calls counted in the current window; saturates.
    pub instruction_count: u32,
    pub last_instruction: i64,
    pub bump: u8,
}

/// Length of a rate-limit window in seconds.
pub const WINDOW_SIZE: i64 = 60;

/// Calls per window that a fresh configuration allows.
pub const DEFAULT_RATE_LIMIT: u32 = 60;

impl UserRateLimit {
    /// Whether the window that began at `window_start` is over at the given time.
    pub open spec fn window_over(&self, current_timestamp: i64) -> bool {
        current_timestamp - self.window_start >= WINDOW_SIZE
    }

    /// Whether a call at the given time would pass the limit: the window is
    /// still running and already full.
    pub fn is_rate_limited(&self, current_timestamp: i64, max_per_minute: u32) -> (limited: bool)
        ensures
            limited == (!self.window_over(current_timestamp) && self.instruction_count
                >= max_per_minute),
    {
        let elapsed: i128 = current_timestamp as i128 - self.window_start as i128;
        if elapsed >= WINDOW_SIZE as i128 {
            return false;
        }
        self.instruction_count >= max_per_minute
    }

    /// Counts one call at the given time, starting a new window first when the
    /// old one is over.
    pub fn record_instruction(&mut self, current_timestamp: i64)
        ensures
            final(self).window_start == if old(self).window_over(current_timestamp) {
                current_timestamp
            } else {
                old(self).window_start
            },
            final(self).instruction_count as int == if old(self).window_over(current_timestamp) {
                1
            } else if old(self).instruction_count == u32::MAX {
                u32::MAX as int
            } else {
                old(self).instruction_count + 1
            },
            final(self).last_instruction == current_timestamp,
            final(self).user == old(self).user,
            final(self).bump == old(self).bump,
    {
        let elapsed: i128 = current_timestamp as i128 - self.window_start as i128;
        if elapsed >= WINDOW_SIZE as i128 {
            self.window_start = current_timestamp;
            self.instruction_count = 0;
        }
        self.instruction_count = self.instruction_count.saturating_add(1);
        self.last_instruction = current_timestamp;
    }
}

} // verus!
