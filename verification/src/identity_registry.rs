//! Agent identities, their collateral, and the program's pause and
//! rate-limit switches.

pub mod admin;
pub mod deactivate_agent;
pub mod register_agent;
pub mod stake;
pub mod state;
pub mod update_identity;
pub mod verify_identity;
