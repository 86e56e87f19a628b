//! Recording the receipt of a payment.

use vstd::prelude::*;
use crate::address::Address;
use crate::text::{byte_len, stored_len};
use crate::vote_registry::content_rating::{ContentType, MAX_SIGNATURE_LEN};
use crate::vote_registry::error::VoteError;
use crate::vote_registry::transaction_receipt::TransactionReceipt;

verus! {

/// What recording a receipt touches: the fresh receipt record, the two
/// parties of the payment, and who signed.
#[derive(Clone, Debug)]
pub struct CreateTransactionReceipt {
    pub receipt: TransactionReceipt,
    pub payer_pubkey: Address,
    pub recipient_pubkey: Address,
    /// The signer.
    pub creator: Address,
}

/// The first reason, if any, for which a receipt is refused.
pub open spec fn receipt_rejection(ctx: CreateTransactionReceipt, signature: Seq<char>) -> Option<
    VoteError,
> {
    if ctx.creator != ctx.payer_pubkey && ctx.creator != ctx.recipient_pubkey {
        Some(VoteError::UnauthorizedReceiptCreation)
    } else if byte_len(signature) > MAX_SIGNATURE_LEN {
        Some(VoteError::InvalidX402Signature)
    } else if ctx.payer_pubkey == ctx.recipient_pubkey {
        Some(VoteError::SelfTransactionNotAllowed)
    } else {
        None
    }
}

/// Records a payment between two different agents, on which no vote has been
/// cast yet. Only a party of the payment may.
pub fn handler(
    ctx: &mut CreateTransactionReceipt,
    signature: String,
    amount: u64,
    content_type: ContentType,
    now: i64,
    bump: u8,
) -> (r: Result<(), VoteError>)
    ensures
        match r {
            Ok(()) => {
                &&& receipt_rejection(*old(ctx), signature@) is None
                &&& *final(ctx) == (CreateTransactionReceipt {
                    receipt: TransactionReceipt {
                        signature,
                        payer: old(ctx).payer_pubkey,
                        recipient: old(ctx).recipient_pubkey,
                        amount,
                        timestamp: now,
                        content_type,
                        vote_cast: false,
                        bump,
                    },
                    ..*old(ctx)
                })
            },
            Err(e) => {
                &&& receipt_rejection(*old(ctx), signature@) == Some(e)
                &&& *final(ctx) == *old(ctx)
            },
        },
{
    if !ctx.creator.equals(&ctx.payer_pubkey) && !ctx.creator.equals(&ctx.recipient_pubkey) {
        return Err(VoteError::UnauthorizedReceiptCreation);
    }
    if stored_len(&signature) > MAX_SIGNATURE_LEN {
        return Err(VoteError::InvalidX402Signature);
    }
    if ctx.payer_pubkey.equals(&ctx.recipient_pubkey) {
        return Err(VoteError::SelfTransactionNotAllowed);
    }
    ctx.receipt.signature = signature;
    ctx.receipt.payer = ctx.payer_pubkey;
    ctx.receipt.recipient = ctx.recipient_pubkey;
    ctx.receipt.amount = amount;
    ctx.receipt.timestamp = now;
    ctx.receipt.content_type = content_type;
    ctx.receipt.vote_cast = false;
    ctx.receipt.bump = bump;
    Ok(())
}

} // verus!
