//! Test results for service endpoints, their consensus, and the stamp that a
//! good consensus earns.

pub mod calculate_consensus;
pub mod error;
pub mod initialize_authority;
pub mod issue_validation_stamp;
pub mod state;
pub mod submit_validation;
