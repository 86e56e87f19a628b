//! Reputation scores with time decay, and the multisig that governs them.

pub mod decay;
pub mod error;
pub mod initialize_authority;
pub mod initialize_reputation;
pub mod multisig;
pub mod record_payment_proof;
pub mod state;
pub mod update_reputation;
