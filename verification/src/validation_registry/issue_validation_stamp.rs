//! Issuing the stamp for a validated endpoint.

use vstd::prelude::*;
use crate::address::Address;
use crate::validation_registry::error::ValidationError;
use crate::validation_registry::state::{EndpointValidation, ValidationAuthority, STAMP_THRESHOLD};

verus! {

/// What issuing a stamp touches: the validation, the authority record, and
/// who signed.
#[derive(Clone, Debug)]
pub struct IssueValidationStamp {
    pub endpoint_validation: EndpointValidation,
    pub authority_account: ValidationAuthority,
    /// The signer.
    pub authority: Address,
}

/// The first reason, if any, for which no stamp is issued.
pub open spec fn stamp_rejection(ctx: IssueValidationStamp) -> Option<ValidationError> {
    if ctx.authority_account.authority != ctx.authority {
        Some(ValidationError::UnauthorizedAuthority)
    } else if ctx.endpoint_validation.stamp_issued {
        Some(ValidationError::StampAlreadyIssued)
    } else if ctx.endpoint_validation.consensus_score < STAMP_THRESHOLD {
        Some(ValidationError::InvalidConsensusScore)
    } else {
        None
    }
}

/// Issues the stamp for a validation whose consensus reaches the threshold
/// and that has none yet. Only the authority may.
pub fn handler(ctx: &mut IssueValidationStamp) -> (r: Result<(), ValidationError>)
    ensures
        match r {
            Ok(()) => {
                &&& stamp_rejection(*old(ctx)) is None
                &&& *final(ctx) == (IssueValidationStamp {
                    endpoint_validation: EndpointValidation {
                        stamp_issued: true,
                        ..old(ctx).endpoint_validation
                    },
                    ..*old(ctx)
                })
            },
            Err(e) => {
                &&& stamp_rejection(*old(ctx)) == Some(e)
                &&& *final(ctx) == *old(ctx)
            },
        },
{
    if !ctx.authority_account.authority.equals(&ctx.authority) {
        return Err(ValidationError::UnauthorizedAuthority);
    }
    if ctx.endpoint_validation.stamp_issued {
        return Err(ValidationError::StampAlreadyIssued);
    }
    if !(ctx.endpoint_validation.consensus_score > 0) {
        return Err(ValidationError::InvalidConsensusScore);
    }
    if ctx.endpoint_validation.consensus_score < STAMP_THRESHOLD {
        return Err(ValidationError::InvalidConsensusScore);
    }
    ctx.endpoint_validation.stamp_issued = true;
    Ok(())
}

} // verus!
