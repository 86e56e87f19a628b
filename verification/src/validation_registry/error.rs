//! Errors of the validation registry.

use vstd::prelude::*;

verus! {

/// Why a validation operation was refused.
#[derive(Clone, Copy, Debug, PartialEq, Eq, Structural)]
pub enum ValidationError {
    EndpointUrlTooLong,
    TooManyTestResults,
    LlmModelNameTooLong,
    InvalidConsensusScore,
    StampAlreadyIssued,
    InsufficientTestResults,
    ProviderNotFound,
    UnauthorizedAuthority,
}

} // verus!
