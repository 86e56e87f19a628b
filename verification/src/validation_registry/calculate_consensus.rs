//! Drawing the consensus on an endpoint's test results.

use vstd::prelude::*;
use crate::address::Address;
use crate::validation_registry::error::ValidationError;
use crate::validation_registry::state::{
    consensus_of, lemma_consensus_bound, lemma_success_bounds, success_score_sum, successes,
    EndpointValidation, ValidationAuthority, MAX_CONSENSUS_SCORE, MIN_RESULTS_FOR_CONSENSUS,
};

verus! {

/// What drawing a consensus touches: the validation, the authority record,
/// and who signed.
#[derive(Clone, Debug)]
pub struct CalculateConsensus {
    pub endpoint_validation: EndpointValidation,
    pub authority_account: ValidationAuthority,
    /// The signer.
    pub authority: Address,
}

/// The first reason, if any, for which no consensus is drawn.
pub open spec fn consensus_rejection(ctx: CalculateConsensus) -> Option<ValidationError> {
    if ctx.authority_account.authority != ctx.authority {
        Some(ValidationError::UnauthorizedAuthority)
    } else if ctx.endpoint_validation.test_results@.len() < MIN_RESULTS_FOR_CONSENSUS {
        Some(ValidationError::InsufficientTestResults)
    } else {
        None
    }
}

/// Draws the consensus on the results at hand, records it, and returns it.
/// Only the authority may.
pub fn handler(ctx: &mut CalculateConsensus) -> (r: Result<u16, ValidationError>)
    ensures
        match r {
            Ok(consensus) => {
                &&& consensus_rejection(*old(ctx)) is None
                &&& consensus == consensus_of(old(ctx).endpoint_validation.test_results@)
                &&& *final(ctx) == (CalculateConsensus {
                    endpoint_validation: EndpointValidation {
                        consensus_score: consensus,
                        ..old(ctx).endpoint_validation
                    },
                    ..*old(ctx)
                })
            },
            Err(e) => {
                &&& consensus_rejection(*old(ctx)) == Some(e)
                &&& *final(ctx) == *old(ctx)
            },
        },
{
    if !ctx.authority_account.authority.equals(&ctx.authority) {
        return Err(ValidationError::UnauthorizedAuthority);
    }
    let count: usize = ctx.endpoint_validation.test_results.len();
    if count < MIN_RESULTS_FOR_CONSENSUS {
        return Err(ValidationError::InsufficientTestResults);
    }
    let ghost results = ctx.endpoint_validation.test_results@;
    let mut total_score: u128 = 0;
    let mut successful_tests: u128 = 0;
    let mut i: usize = 0;
    while i < count
        invariant
            i <= count,
            count == results.len(),
            results == ctx.endpoint_validation.test_results@,
            successful_tests == successes(results.take(i as int)),
            total_score == success_score_sum(results.take(i as int)),
            successful_tests <= i,
            total_score <= 255 * i,
            *ctx == *old(ctx),
        decreases count - i,
    {
        proof {
            assert(results.take(i + 1).drop_last() =~= results.take(i as int));
        }
        if ctx.endpoint_validation.test_results[i].success {
            successful_tests = successful_tests + 1;
            total_score = total_score + ctx.endpoint_validation.test_results[i].score as u128;
        }
        i += 1;
    }
    proof {
        assert(results.take(count as int) =~= results);
        lemma_success_bounds(results);
        lemma_consensus_bound(results);
    }
    let avg_score: u128 = if successful_tests > 0 {
        total_score / successful_tests
    } else {
        0
    };
    assert(successful_tests * 100 <= count * 100) by (nonlinear_arith)
        requires
            successful_tests <= count,
    ;
    let success_rate: u128 = successful_tests * 100 / (count as u128);
    assert(success_rate <= 100) by (nonlinear_arith)
        requires
            success_rate == successful_tests * 100 / (count as int),
            successful_tests <= count,
            count > 0,
    ;
    assert(avg_score <= 255) by (nonlinear_arith)
        requires
            successful_tests > 0 ==> avg_score == total_score / successful_tests,
            successful_tests == 0 ==> avg_score == 0,
            total_score <= 255 * successful_tests,
    ;
    let success_bonus: u128 = success_rate * 9 / 10;
    let raw: u128 = avg_score + success_bonus;
    let consensus: u16 = if raw <= MAX_CONSENSUS_SCORE as u128 {
        raw as u16
    } else {
        MAX_CONSENSUS_SCORE
    };
    ctx.endpoint_validation.consensus_score = consensus;
    Ok(consensus)
}

} // verus!
