//! Stake-weighted reputation and governance rules for autonomous agents.
//!
//! Every operation is a transition on plain records: it takes the records it
//! touches, the address of whoever signed, and the current time, and either
//! commits the whole change or reports an error and leaves the records as
//! they were.
//!
//! The collateral ledger is in [`identity_registry::stake`], reputation decay
//! in [`reputation_registry::decay`], and the multisig that governs
//! reputations in [`reputation_registry::multisig`]. The program-wide pause
//! switch and the per-caller rate limit are in [`identity_registry::admin`];
//! a caller consults them, with `check_rate_limit`, before it asks for an
//! operation that changes records.

pub mod address;
pub mod identity_registry;
pub mod reputation_registry;
pub mod text;
pub mod token_staking;
pub mod validation_registry;
pub mod vote_registry;
