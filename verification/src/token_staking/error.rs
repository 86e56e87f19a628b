//! Errors of token staking.

use vstd::prelude::*;

verus! {

/// Why a token-staking operation was refused.
#[derive(Clone, Copy, Debug, PartialEq, Eq, Structural)]
pub enum TokenStakingError {
    VaultNotActive,
    BelowMinimumStake,
    StakeLocked,
    StakeNotActive,
    UnauthorizedStaker,
    UnauthorizedAuthority,
    InvalidLockPeriod,
    InvalidWeightMultiplier,
    InvalidTokenMint,
    InvalidTokenOwner,
    InvalidUnstakeAmount,
    SelfStakingNotAllowed,
    ArithmeticOverflow,
}

} // verus!
