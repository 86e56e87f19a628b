//! Votes, content ratings and endorsements between agents, each tied to proof
//! of an interaction.

pub mod agent_endorsement;
pub mod cast_peer_vote;
pub mod content_rating;
pub mod create_transaction_receipt;
pub mod endorse_agent;
pub mod error;
pub mod peer_vote;
pub mod rate_content;
pub mod transaction_receipt;
