//! Records of the validation registry.

use vstd::prelude::*;
use crate::address::Address;

verus! {

/// Longest endpoint address, in bytes.
pub const MAX_ENDPOINT_URL_LEN: usize = 200;

/// Most test results one validation holds.
pub const MAX_TEST_RESULTS: usize = 10;

/// Longest model name, in bytes.
pub const MAX_MODEL_NAME_LEN: usize = 50;

/// Fewest test results from which a consensus is drawn.
pub const MIN_RESULTS_FOR_CONSENSUS: usize = 3;

/// Lowest consensus score that earns a stamp.
pub const STAMP_THRESHOLD: u16 = 700;

/// Highest consensus score.
pub const MAX_CONSENSUS_SCORE: u16 = 1000;

/// The outcome of testing an endpoint with one model.
#[derive(Clone, Debug)]
pub struct TestResult {
    pub llm_model: String,
    pub success: bool,
    /// Milliseconds.
    pub response_time: u64,
    /// Quality, 0 to 100.
    pub score: u8,
}

/// The validation of one endpoint.
#[derive(Clone, Debug)]
pub struct EndpointValidation {
    pub endpoint_hash: [u8; 32],
    pub endpoint_url: String,
    pub provider_agent: Address,
    pub test_results: Vec<TestResult>,
    /// 0 until a consensus is drawn.
    pub consensus_score: u16,
    pub stamp_issued: bool,
    pub timestamp: i64,
    pub bump: u8,
}

/// The single authority that draws consensus and issues stamps.
#[derive(Clone, Copy, Debug)]
pub struct ValidationAuthority {
    pub authority: Address,
    pub bump: u8,
}

/// The number of successful tests among the results.
pub open spec fn successes(results: Seq<TestResult>) -> nat
    decreases results.len(),
{
    if results.len() == 0 {
        0
    } else {
        successes(results.drop_last()) + if results.last().success {
            1nat
        } else {
            0nat
        }
    }
}

/// The scores of the successful tests, added up.
pub open spec fn success_score_sum(results: Seq<TestResult>) -> nat
    decreases results.len(),
{
    if results.len() == 0 {
        0
    } else {
        success_score_sum(results.drop_last()) + if results.last().success {
            results.last().score as nat
        } else {
            0nat
        }
    }
}

/// The mean score of the successful tests, rounded down; 0 where none succeeded.
pub open spec fn mean_success_score(results: Seq<TestResult>) -> nat {
    if successes(results) > 0 {
        success_score_sum(results) / successes(results)
    } else {
        0
    }
}

/// The share of successful tests in percent, rounded down; 0 for no results.
pub open spec fn success_rate(results: Seq<TestResult>) -> nat {
    if results.len() > 0 {
        successes(results) * 100 / results.len()
    } else {
        0
    }
}

/// The consensus on a set of results: the mean score of the successful tests
/// plus nine tenths of the success rate, at most 1000.
pub open spec fn consensus_of(results: Seq<TestResult>) -> nat {
    let raw = mean_success_score(results) + success_rate(results) * 9 / 10;
    if raw <= MAX_CONSENSUS_SCORE as nat { raw } else { MAX_CONSENSUS_SCORE as nat }
}

/// No more tests succeed than there are results, and their scores add up to
/// no more than 255 each.
pub proof fn lemma_success_bounds(results: Seq<TestResult>)
    ensures
        successes(results) <= results.len(),
        success_score_sum(results) <= 255 * successes(results),
    decreases results.len(),
{
    if results.len() > 0 {
        lemma_success_bounds(results.drop_last());
    }
}

/// A consensus is at most the best score plus ninety.
pub proof fn lemma_consensus_bound(results: Seq<TestResult>)
    ensures
        consensus_of(results) <= 345,
{
    lemma_success_bounds(results);
    let passed = successes(results);
    let total = success_score_sum(results);
    let len = results.len();
    if passed > 0 {
        assert(total / passed <= 255) by (nonlinear_arith)
            requires
                total <= 255 * passed,
                passed > 0,
        ;
    }
    if len > 0 {
        assert(passed * 100 / len <= 100) by (nonlinear_arith)
            requires
                passed <= len,
                len > 0,
        ;
    }
}

} // verus!
