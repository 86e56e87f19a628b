//! A rating of content that was paid for.

use vstd::prelude::*;
use crate::address::Address;

verus! {

/// What kind of content was delivered.
#[derive(Clone, Copy, Debug, PartialEq, Eq, Structural)]
pub enum ContentType {
    ApiResponse,
    GeneratedText,
    GeneratedImage,
    GeneratedCode,
    DataFeed,
    Other,
}

/// Highest content rating.
pub const MAX_CONTENT_RATING: u8 = 100;

/// Longest payment signature, in bytes.
pub const MAX_SIGNATURE_LEN: usize = 88;

/// A rater's judgement of an agent's content.
#[derive(Clone, Debug)]
pub struct ContentRating {
    /// The agent that produced the content.
    pub agent: Address,
    pub rater: Address,
    /// Signature of the payment for the content.
    pub x402_signature: String,
    /// 0 to 100.
    pub quality_rating: u8,
    pub content_type: ContentType,
    pub amount_paid: u64,
    pub timestamp: i64,
    /// The rater's score when the rating was given.
    pub rater_reputation_snapshot: u16,
    pub bump: u8,
}

} // verus!
