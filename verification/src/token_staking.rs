//! Staking tokens on other agents as an endorsement.

pub mod error;
pub mod initialize_vault;
pub mod stake_position;
pub mod stake_tokens;
pub mod staking_vault;
pub mod unstake_tokens;
pub mod update_vault;
