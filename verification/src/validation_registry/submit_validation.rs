//! Handing in the results of testing an endpoint.

use vstd::prelude::*;
use crate::address::Address;
use crate::text::{byte_len, stored_len};
use crate::validation_registry::error::ValidationError;
use crate::validation_registry::state::{
    EndpointValidation, TestResult, MAX_ENDPOINT_URL_LEN, MAX_MODEL_NAME_LEN, MAX_TEST_RESULTS,
};

verus! {

/// What handing in results touches: the fresh validation record and the
/// endpoint's provider.
#[derive(Clone, Debug)]
pub struct SubmitValidation {
    pub endpoint_validation: EndpointValidation,
    pub provider_agent: Address,
}

/// Whether every model name among the results fits its field.
pub open spec fn model_names_fit(results: Seq<TestResult>) -> bool {
    forall|i: int|
        0 <= i < results.len() ==> byte_len((#[trigger] results[i]).llm_model@)
            <= MAX_MODEL_NAME_LEN
}

/// The first reason, if any, for which results are refused.
pub open spec fn submit_rejection(endpoint_url: Seq<char>, results: Seq<TestResult>) -> Option<
    ValidationError,
> {
    if byte_len(endpoint_url) > MAX_ENDPOINT_URL_LEN {
        Some(ValidationError::EndpointUrlTooLong)
    } else if results.len() > MAX_TEST_RESULTS {
        Some(ValidationError::TooManyTestResults)
    } else if !model_names_fit(results) {
        Some(ValidationError::LlmModelNameTooLong)
    } else {
        None
    }
}

/// Records the results for an endpoint, without consensus and without stamp.
pub fn handler(
    ctx: &mut SubmitValidation,
    endpoint_url: String,
    endpoint_hash: [u8; 32],
    test_results: Vec<TestResult>,
    now: i64,
    bump: u8,
) -> (r: Result<(), ValidationError>)
    ensures
        match r {
            Ok(()) => {
                &&& submit_rejection(endpoint_url@, test_results@) is None
                &&& *final(ctx) == (SubmitValidation {
                    endpoint_validation: EndpointValidation {
                        endpoint_hash,
                        endpoint_url,
                        provider_agent: old(ctx).provider_agent,
                        test_results,
                        consensus_score: 0,
                        stamp_issued: false,
                        timestamp: now,
                        bump,
                    },
                    ..*old(ctx)
                })
            },
            Err(e) => {
                &&& submit_rejection(endpoint_url@, test_results@) == Some(e)
                &&& *final(ctx) == *old(ctx)
            },
        },
{
    if stored_len(&endpoint_url) > MAX_ENDPOINT_URL_LEN {
        return Err(ValidationError::EndpointUrlTooLong);
    }
    if test_results.len() > MAX_TEST_RESULTS {
        return Err(ValidationError::TooManyTestResults);
    }
    let mut i: usize = 0;
    while i < test_results.len()
        invariant
            i <= test_results@.len(),
            *ctx == *old(ctx),
            byte_len(endpoint_url@) <= MAX_ENDPOINT_URL_LEN,
            test_results@.len() <= MAX_TEST_RESULTS,
            forall|j: int|
                0 <= j < i ==> byte_len((#[trigger] test_results@[j]).llm_model@)
                    <= MAX_MODEL_NAME_LEN,
        decreases test_results@.len() - i,
    {
        if stored_len(&test_results[i].llm_model) > MAX_MODEL_NAME_LEN {
            assert(byte_len(test_results@[i as int].llm_model@) > MAX_MODEL_NAME_LEN);
            return Err(ValidationError::LlmModelNameTooLong);
        }
        i += 1;
    }
    ctx.endpoint_validation.endpoint_hash = endpoint_hash;
    ctx.endpoint_validation.endpoint_url = endpoint_url;
    ctx.endpoint_validation.provider_agent = ctx.provider_agent;
    ctx.endpoint_validation.test_results = test_results;
    ctx.endpoint_validation.consensus_score = 0;
    ctx.endpoint_validation.stamp_issued = false;
    ctx.endpoint_validation.timestamp = now;
    ctx.endpoint_validation.bump = bump;
    Ok(())
}

} // verus!
