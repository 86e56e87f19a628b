//! One staker's position in a vault.

use vstd::prelude::*;
use crate::address::Address;

verus! {

/// What a stake endorses.
#[derive(Clone, Copy, Debug, PartialEq, Eq, Structural)]
pub enum StakeCategory {
    General,
    Quality,
    Reliability,
    Capability,
    Security,
}

impl Default for StakeCategory {
    fn default() -> (category: StakeCategory)
        ensures
            category == StakeCategory::General,
    {
        StakeCategory::General
    }
}

/// A staker's tokens in a vault, endorsing the vault's agent.
#[derive(Clone, Copy, Debug)]
pub struct StakePosition {
    pub vault: Address,
    pub staker: Address,
    pub target_agent: Address,
    pub token_mint: Address,
    /// Tokens staked.
    pub amount: u64,
    pub category: StakeCategory,
    /// The trust that the stake carries, as weighed when it last changed.
    pub trust_weight: u64,
    pub staked_at: i64,
    /// When the tokens may be withdrawn.
    pub locked_until: i64,
    /// When the position was closed; 0 while it is open.
    pub unstaked_at: i64,
    pub is_active: bool,
    pub is_slashed: bool,
    pub bump: u8,
}

impl StakePosition {
    /// Whether the position is open and its lock has run out.
    pub fn can_unlock(&self, current_timestamp: i64) -> (unlocked: bool)
        ensures
            unlocked == (self.is_active && current_timestamp >= self.locked_until),
    {
        self.is_active && current_timestamp >= self.locked_until
    }
}

} // verus!
