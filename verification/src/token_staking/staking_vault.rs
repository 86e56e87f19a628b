//! A vault that takes stakes in one token for one agent.

use vstd::prelude::*;
use crate::address::Address;

verus! {

/// Smallest stake of a vault set up with defaults.
pub const DEFAULT_MIN_STAKE: u64 = 1_000_000;

/// Lock of a vault set up with defaults: 7 days.
pub const DEFAULT_LOCK_PERIOD: i64 = 7 * 24 * 60 * 60;

/// Longest lock a vault can ask for: 365 days.
pub const MAX_LOCK_PERIOD: i64 = 365 * 24 * 60 * 60;

/// Smallest and largest weight multiplier, in hundredths.
pub const MIN_WEIGHT_MULTIPLIER: u16 = 10;

pub const MAX_WEIGHT_MULTIPLIER: u16 = 1000;

/// A vault's settings and running totals.
#[derive(Clone, Copy, Debug)]
pub struct StakingVault {
    /// The agent that the stakes endorse.
    pub target_agent: Address,
    pub token_mint: Address,
    pub vault_token_account: Address,
    pub min_stake_amount: u64,
    pub lock_period_seconds: i64,
    /// Multiplier on the trust of a stake, in hundredths: 100 is 1x.
    pub weight_multiplier: u16,
    pub total_staked: u64,
    /// Open positions; saturates.
    pub total_stakers: u32,
    pub authority: Address,
    /// Whether the vault takes new stakes.
    pub is_active: bool,
    pub is_verified: bool,
    pub created_at: i64,
    pub updated_at: i64,
    pub bump: u8,
    pub vault_bump: u8,
}

/// The trust of a stake whose size has the given base weight, under a
/// multiplier in hundredths.
pub open spec fn trust_weight(base_weight: u64, weight_multiplier: u16) -> int {
    base_weight * weight_multiplier / 100
}

impl StakingVault {
    /// The trust of a stake whose size has the given base weight, under this
    /// vault's multiplier; `None` where it does not fit.
    ///
    /// The base weight is a hundred times the binary logarithm of the staked
    /// amount plus one; the caller computes it.
    pub fn calculate_trust_weight(&self, base_weight: u64) -> (weight: Option<u64>)
        ensures
            match weight {
                Some(w) => w == trust_weight(base_weight, self.weight_multiplier),
                None => trust_weight(base_weight, self.weight_multiplier) > u64::MAX,
            },
    {
        assert(base_weight * self.weight_multiplier <= 0xffff_ffff_ffff_ffff * 0xffff)
            by (nonlinear_arith)
            requires
                base_weight <= 0xffff_ffff_ffff_ffff,
                self.weight_multiplier <= 0xffff,
        ;
        let scaled: u128 = (base_weight as u128) * (self.weight_multiplier as u128) / 100;
        if scaled > u64::MAX as u128 {
            None
        } else {
            Some(scaled as u64)
        }
    }
}

} // verus!
