//! The multisig that governs reputations: a roster of signers with a
//! threshold, and proposals that signers approve until one of them can
//! execute the change.
//!
//! A proposal starts `Pending`, becomes `Approved` with the approval that
//! reaches the threshold, and `Executed` when a signer executes it. Nothing
//! leaves `Executed`. A proposal past its deadline takes no more approvals.

use vstd::prelude::*;
use crate::address::Address;
use crate::reputation_registry::error::{RegistryError, ReputationError};
use crate::reputation_registry::state::{
    lemma_approvers_bounded, lemma_no_approvers_in_zero, lemma_set_bit_adds_approver,
    AgentReputation, ComponentScores, MultisigAuthority, MultisigProposal, ProposalStatus,
    ProposalType, ReputationStats, MAX_COMPONENT_SCORE, MAX_MULTISIG_SIGNERS, MAX_OVERALL_SCORE,
    MAX_REVIEW_RATING,
};

verus! {

/// Why a multisig operation was refused.
#[derive(Clone, Copy, Debug, PartialEq, Eq, Structural)]
pub enum MultisigError {
    InvalidThreshold,
    MaxSignersReached,
    SignerNotFound,
    SignerAlreadyExists,
    ProposalExpired,
    ProposalAlreadyExecuted,
    AlreadyApproved,
    InsufficientApprovals,
    UnauthorizedSigner,
    UnauthorizedAdmin,
    MultisigPaused,
    WouldGobelowThreshold,
}

/// A count that stops at its ceiling instead of wrapping.
pub open spec fn saturating_inc_u8(n: u8) -> u8 {
    if n == u8::MAX { n } else { (n + 1) as u8 }
}

// ---------------------------------------------------------------------------
// Set-up
// ---------------------------------------------------------------------------

/// What setting up the multisig touches: the fresh roster record and who signed.
#[derive(Clone, Debug)]
pub struct InitializeMultisig {
    pub multisig: MultisigAuthority,
    /// The signer, who becomes the roster's admin.
    pub admin: Address,
}

/// The first reason, if any, for which a roster is not accepted.
pub open spec fn initialize_multisig_rejection(signers: Seq<Address>, threshold: u8) -> Option<
    RegistryError,
> {
    if signers.len() == 0 || signers.len() > MAX_MULTISIG_SIGNERS {
        Some(RegistryError::Multisig(MultisigError::MaxSignersReached))
    } else if threshold == 0 || threshold > signers.len() {
        Some(RegistryError::Multisig(MultisigError::InvalidThreshold))
    } else {
        None
    }
}

/// Sets up an active multisig with the given signers and threshold.
pub fn initialize_multisig(
    ctx: &mut InitializeMultisig,
    signers: Vec<Address>,
    threshold: u8,
    now: i64,
    bump: u8,
) -> (r: Result<(), RegistryError>)
    ensures
        match r {
            Ok(()) => {
                &&& initialize_multisig_rejection(signers@, threshold) is None
                &&& final(ctx).admin == old(ctx).admin
                &&& final(ctx).multisig.signers@ == signers@
                &&& final(ctx).multisig.threshold == threshold
                &&& final(ctx).multisig.proposal_count == 0
                &&& final(ctx).multisig.admin == old(ctx).admin
                &&& final(ctx).multisig.is_active
                &&& final(ctx).multisig.created_at == now
                &&& final(ctx).multisig.bump == bump
                &&& final(ctx).multisig.wf()
            },
            Err(e) => {
                &&& initialize_multisig_rejection(signers@, threshold) == Some(e)
                &&& *final(ctx) == *old(ctx)
            },
        },
{
    if signers.len() == 0 || signers.len() > MAX_MULTISIG_SIGNERS {
        return Err(RegistryError::Multisig(MultisigError::MaxSignersReached));
    }
    if threshold == 0 || threshold as usize > signers.len() {
        return Err(RegistryError::Multisig(MultisigError::InvalidThreshold));
    }
    ctx.multisig.signers = signers;
    ctx.multisig.threshold = threshold;
    ctx.multisig.proposal_count = 0;
    ctx.multisig.admin = ctx.admin;
    ctx.multisig.is_active = true;
    ctx.multisig.created_at = now;
    ctx.multisig.bump = bump;
    Ok(())
}

// ---------------------------------------------------------------------------
// Propose
// ---------------------------------------------------------------------------

/// The first reason, if any, for which scores are not fit to be written to a
/// reputation: each must be within its range.
pub open spec fn payload_rejection(
    overall_score: u16,
    component_scores: ComponentScores,
    stats: ReputationStats,
) -> Option<RegistryError> {
    if overall_score > MAX_OVERALL_SCORE {
        Some(RegistryError::Reputation(ReputationError::InvalidOverallScore))
    } else if !component_scores.in_range() {
        Some(RegistryError::Reputation(ReputationError::InvalidComponentScore))
    } else if stats.avg_review_rating > MAX_REVIEW_RATING {
        Some(RegistryError::Reputation(ReputationError::InvalidReviewRating))
    } else {
        None
    }
}

/// Checks that scores are fit to be written to a reputation.
pub fn check_payload(
    overall_score: u16,
    component_scores: &ComponentScores,
    stats: &ReputationStats,
) -> (r: Result<(), RegistryError>)
    ensures
        match r {
            Ok(()) => payload_rejection(overall_score, *component_scores, *stats) is None,
            Err(e) => payload_rejection(overall_score, *component_scores, *stats) == Some(e),
        },
{
    if overall_score > MAX_OVERALL_SCORE {
        return Err(RegistryError::Reputation(ReputationError::InvalidOverallScore));
    }
    if !(component_scores.trust <= MAX_COMPONENT_SCORE && component_scores.quality
        <= MAX_COMPONENT_SCORE && component_scores.reliability <= MAX_COMPONENT_SCORE
        && component_scores.economic <= MAX_COMPONENT_SCORE && component_scores.social
        <= MAX_COMPONENT_SCORE) {
        return Err(RegistryError::Reputation(ReputationError::InvalidComponentScore));
    }
    if stats.avg_review_rating > MAX_REVIEW_RATING {
        return Err(RegistryError::Reputation(ReputationError::InvalidReviewRating));
    }
    Ok(())
}

/// What proposing touches: the roster, the fresh proposal record, the agent
/// whose reputation is to change, and who signed.
#[derive(Clone, Debug)]
pub struct ProposeReputationUpdate {
    pub multisig: MultisigAuthority,
    pub proposal: MultisigProposal,
    pub target_agent: Address,
    /// The signer.
    pub proposer: Address,
}

/// The first reason, if any, for which a proposal is not taken.
pub open spec fn propose_rejection(
    ctx: ProposeReputationUpdate,
    overall_score: u16,
    component_scores: ComponentScores,
    stats: ReputationStats,
) -> Option<RegistryError> {
    if !ctx.multisig.is_active {
        Some(RegistryError::Multisig(MultisigError::MultisigPaused))
    } else if ctx.multisig.signer_index(ctx.proposer) is None {
        Some(RegistryError::Multisig(MultisigError::UnauthorizedSigner))
    } else if payload_rejection(overall_score, component_scores, stats) is Some {
        payload_rejection(overall_score, component_scores, stats)
    } else if ctx.multisig.proposal_count == u64::MAX {
        Some(RegistryError::Reputation(ReputationError::ArithmeticOverflow))
    } else {
        None
    }
}

/// Files a proposal to rewrite the target agent's reputation, approved by its
/// proposer, and returns its id. Only an active roster's signer may, and only
/// with scores that are within their ranges.
pub fn propose_reputation_update(
    ctx: &mut ProposeReputationUpdate,
    overall_score: u16,
    component_scores: ComponentScores,
    stats: ReputationStats,
    merkle_root: [u8; 32],
    now: i64,
    bump: u8,
) -> (r: Result<u64, RegistryError>)
    requires
        old(ctx).multisig.signers@.len() <= MAX_MULTISIG_SIGNERS,
    ensures
        match r {
            Ok(id) => {
                &&& propose_rejection(*old(ctx), overall_score, component_scores, stats) is None
                &&& final(ctx).proposal.payload_in_range()
                &&& id == old(ctx).multisig.proposal_count
                &&& final(ctx).target_agent == old(ctx).target_agent
                &&& final(ctx).proposer == old(ctx).proposer
                &&& final(ctx).multisig == (MultisigAuthority {
                    proposal_count: (id + 1) as u64,
                    ..old(ctx).multisig
                })
                &&& final(ctx).proposal.target_signer.is_zero()
                &&& final(ctx).proposal == (MultisigProposal {
                    proposal_id: id,
                    proposal_type: ProposalType::UpdateReputation,
                    proposer: old(ctx).proposer,
                    target_agent: old(ctx).target_agent,
                    proposed_score: overall_score,
                    proposed_components: component_scores,
                    proposed_stats: stats,
                    proposed_merkle_root: merkle_root,
                    target_signer: final(ctx).proposal.target_signer,
                    new_threshold: 0,
                    approval_bitmap: 1u8 << (old(ctx).multisig.signer_index(
                        old(ctx).proposer,
                    ).unwrap() as u8),
                    approval_count: 1,
                    status: ProposalStatus::Pending,
                    created_at: now,
                    executed_at: 0,
                    bump,
                })
                &&& final(ctx).proposal.wf()
                &&& final(ctx).proposal.approved_by() == set![
                    old(ctx).multisig.signer_index(old(ctx).proposer).unwrap(),
                ]
            },
            Err(e) => {
                &&& propose_rejection(*old(ctx), overall_score, component_scores, stats)
                    == Some(e)
                &&& *final(ctx) == *old(ctx)
            },
        },
{
    if !ctx.multisig.is_active {
        return Err(RegistryError::Multisig(MultisigError::MultisigPaused));
    }
    let signer_index: u8 = match ctx.multisig.position_of(&ctx.proposer) {
        Some(i) => i as u8,
        None => { return Err(RegistryError::Multisig(MultisigError::UnauthorizedSigner)); },
    };
    match check_payload(overall_score, &component_scores, &stats) {
        Ok(()) => {},
        Err(e) => { return Err(e); },
    }
    let id: u64 = ctx.multisig.proposal_count;
    let next_id: u64 = match id.checked_add(1) {
        Some(v) => v,
        None => { return Err(RegistryError::Reputation(ReputationError::ArithmeticOverflow)); },
    };
    let mut proposal = MultisigProposal {
        proposal_id: id,
        proposal_type: ProposalType::UpdateReputation,
        proposer: ctx.proposer,
        target_agent: ctx.target_agent,
        proposed_score: overall_score,
        proposed_components: component_scores,
        proposed_stats: stats,
        proposed_merkle_root: merkle_root,
        target_signer: Address::zero(),
        new_threshold: 0,
        approval_bitmap: 0,
        approval_count: 0,
        status: ProposalStatus::Pending,
        created_at: now,
        executed_at: 0,
        bump,
    };
    proof {
        assert(0u8 | (1u8 << signer_index) == 1u8 << signer_index) by (bit_vector);
        lemma_no_approvers_in_zero();
        assert(proposal.wf());
        assert(Set::<int>::empty().insert(signer_index as int) =~= set![signer_index as int]);
    }
    proposal.record_approval(signer_index);
    ctx.proposal = proposal;
    ctx.multisig.proposal_count = next_id;
    Ok(id)
}

// ---------------------------------------------------------------------------
// Approve
// ---------------------------------------------------------------------------

/// What approving touches: the roster, the proposal, and who signed.
#[derive(Clone, Debug)]
pub struct ApproveProposal {
    pub multisig: MultisigAuthority,
    pub proposal: MultisigProposal,
    /// The signer.
    pub signer: Address,
}

/// The first reason, if any, for which an approval is refused.
pub open spec fn approve_rejection(ctx: ApproveProposal, now: i64) -> Option<RegistryError> {
    if ctx.proposal.status != ProposalStatus::Pending && ctx.proposal.status
        != ProposalStatus::Approved {
        Some(RegistryError::Multisig(MultisigError::ProposalAlreadyExecuted))
    } else if ctx.proposal.spec_is_expired(now) {
        Some(RegistryError::Multisig(MultisigError::ProposalExpired))
    } else if !ctx.multisig.is_active {
        Some(RegistryError::Multisig(MultisigError::MultisigPaused))
    } else {
        match ctx.multisig.signer_index(ctx.signer) {
            None => Some(RegistryError::Multisig(MultisigError::UnauthorizedSigner)),
            Some(i) => if ctx.proposal.approved_by().contains(i) {
                Some(RegistryError::Multisig(MultisigError::AlreadyApproved))
            } else {
                None
            },
        }
    }
}

/// The records after an accepted approval: the signer's bit is set, the count
/// is one higher, and the proposal is `Approved` if the count now reaches the
/// threshold. The signer's position joins those that have approved.
pub open spec fn approve_effect(ctx: ApproveProposal) -> ApproveProposal {
    let index = ctx.multisig.signer_index(ctx.signer).unwrap() as u8;
    let count = saturating_inc_u8(ctx.proposal.approval_count);
    ApproveProposal {
        proposal: MultisigProposal {
            approval_bitmap: ctx.proposal.approval_bitmap | (1u8 << index),
            approval_count: count,
            status: if count >= ctx.multisig.threshold {
                ProposalStatus::Approved
            } else {
                ctx.proposal.status
            },
            ..ctx.proposal
        },
        ..ctx
    }
}

/// Adds the signer's approval to a proposal that is still open.
pub fn approve_proposal(ctx: &mut ApproveProposal, now: i64) -> (r: Result<(), RegistryError>)
    requires
        old(ctx).multisig.signers@.len() <= MAX_MULTISIG_SIGNERS,
    ensures
        match r {
            Ok(()) => {
                &&& approve_rejection(*old(ctx), now) is None
                &&& *final(ctx) == approve_effect(*old(ctx))
                &&& old(ctx).proposal.wf() ==> final(ctx).proposal.wf()
            },
            Err(e) => {
                &&& approve_rejection(*old(ctx), now) == Some(e)
                &&& *final(ctx) == *old(ctx)
            },
        },
{
    match ctx.proposal.status {
        ProposalStatus::Pending => {},
        ProposalStatus::Approved => {},
        _ => { return Err(RegistryError::Multisig(MultisigError::ProposalAlreadyExecuted)); },
    }
    if ctx.proposal.is_expired(now) {
        return Err(RegistryError::Multisig(MultisigError::ProposalExpired));
    }
    if !ctx.multisig.is_active {
        return Err(RegistryError::Multisig(MultisigError::MultisigPaused));
    }
    let signer_index: u8 = match ctx.multisig.position_of(&ctx.signer) {
        Some(i) => i as u8,
        None => { return Err(RegistryError::Multisig(MultisigError::UnauthorizedSigner)); },
    };
    if ctx.proposal.has_approved(signer_index) {
        return Err(RegistryError::Multisig(MultisigError::AlreadyApproved));
    }
    ctx.proposal.record_approval(signer_index);
    if ctx.proposal.has_quorum(ctx.multisig.threshold) {
        ctx.proposal.status = ProposalStatus::Approved;
    }
    Ok(())
}

// ---------------------------------------------------------------------------
// Execute
// ---------------------------------------------------------------------------

/// What executing touches: the roster, the proposal, the reputation it
/// rewrites, and who signed.
#[derive(Clone, Debug)]
pub struct ExecuteReputationProposal {
    pub multisig: MultisigAuthority,
    pub proposal: MultisigProposal,
    pub agent_reputation: AgentReputation,
    /// The signer.
    pub executor: Address,
}

/// The first reason, if any, for which an execution is refused.
pub open spec fn execute_rejection(ctx: ExecuteReputationProposal) -> Option<RegistryError> {
    if ctx.proposal.status != ProposalStatus::Approved {
        Some(RegistryError::Multisig(MultisigError::InsufficientApprovals))
    } else if ctx.proposal.proposal_type != ProposalType::UpdateReputation {
        Some(RegistryError::Reputation(ReputationError::InvalidAuthority))
    } else if ctx.agent_reputation.agent_address != ctx.proposal.target_agent {
        Some(RegistryError::AccountMismatch)
    } else if !ctx.multisig.is_active {
        Some(RegistryError::Multisig(MultisigError::MultisigPaused))
    } else if ctx.multisig.signer_index(ctx.executor) is None {
        Some(RegistryError::Multisig(MultisigError::UnauthorizedSigner))
    } else {
        payload_rejection(
            ctx.proposal.proposed_score,
            ctx.proposal.proposed_components,
            ctx.proposal.proposed_stats,
        )
    }
}

/// The records after an accepted execution: the proposed scores, tallies and
/// commitment replace the reputation's, the new score becomes the base from
/// which decay counts, and the proposal is `Executed`.
pub open spec fn execute_effect(ctx: ExecuteReputationProposal, now: i64)
    -> ExecuteReputationProposal {
    ExecuteReputationProposal {
        agent_reputation: AgentReputation {
            overall_score: ctx.proposal.proposed_score,
            base_score: ctx.proposal.proposed_score,
            component_scores: ctx.proposal.proposed_components,
            stats: ctx.proposal.proposed_stats,
            payment_proofs_merkle_root: ctx.proposal.proposed_merkle_root,
            last_updated: now,
            ..ctx.agent_reputation
        },
        proposal: MultisigProposal {
            status: ProposalStatus::Executed,
            executed_at: now,
            ..ctx.proposal
        },
        ..ctx
    }
}

/// Applies an approved proposal to the reputation it names. Any signer of
/// the active roster may. Scores out of range, which no proposal is filed
/// with, are not written.
pub fn execute_reputation_proposal(ctx: &mut ExecuteReputationProposal, now: i64) -> (r: Result<
    (),
    RegistryError,
>)
    ensures
        match r {
            Ok(()) => {
                &&& execute_rejection(*old(ctx)) is None
                &&& *final(ctx) == execute_effect(*old(ctx), now)
                &&& old(ctx).proposal.payload_in_range()
                &&& old(ctx).agent_reputation.wf() ==> final(ctx).agent_reputation.wf()
            },
            Err(e) => {
                &&& execute_rejection(*old(ctx)) == Some(e)
                &&& *final(ctx) == *old(ctx)
            },
        },
{
    match ctx.proposal.status {
        ProposalStatus::Approved => {},
        _ => { return Err(RegistryError::Multisig(MultisigError::InsufficientApprovals)); },
    }
    match ctx.proposal.proposal_type {
        ProposalType::UpdateReputation => {},
        _ => { return Err(RegistryError::Reputation(ReputationError::InvalidAuthority)); },
    }
    if !ctx.agent_reputation.agent_address.equals(&ctx.proposal.target_agent) {
        return Err(RegistryError::AccountMismatch);
    }
    if !ctx.multisig.is_active {
        return Err(RegistryError::Multisig(MultisigError::MultisigPaused));
    }
    if ctx.multisig.position_of(&ctx.executor).is_none() {
        return Err(RegistryError::Multisig(MultisigError::UnauthorizedSigner));
    }
    match check_payload(
        ctx.proposal.proposed_score,
        &ctx.proposal.proposed_components,
        &ctx.proposal.proposed_stats,
    ) {
        Ok(()) => {},
        Err(e) => { return Err(e); },
    }
    ctx.agent_reputation.overall_score = ctx.proposal.proposed_score;
    ctx.agent_reputation.base_score = ctx.proposal.proposed_score;
    ctx.agent_reputation.component_scores = ctx.proposal.proposed_components;
    ctx.agent_reputation.stats = ctx.proposal.proposed_stats;
    ctx.agent_reputation.payment_proofs_merkle_root = ctx.proposal.proposed_merkle_root;
    ctx.agent_reputation.last_updated = now;
    ctx.proposal.status = ProposalStatus::Executed;
    ctx.proposal.executed_at = now;
    Ok(())
}

// ---------------------------------------------------------------------------
// What holds of every proposal
// ---------------------------------------------------------------------------

/// A proposal is executed at most once: whatever the roster, the reputation,
/// the signer and the time of a further attempt, it is refused for want of
/// the `Approved` status, and so changes nothing.
pub proof fn lemma_execute_happens_once(
    ctx: ExecuteReputationProposal,
    now: i64,
    again: ExecuteReputationProposal,
)
    requires
        execute_rejection(ctx) is None,
        again.proposal == execute_effect(ctx, now).proposal,
    ensures
        execute_rejection(again) == Some(
            RegistryError::Multisig(MultisigError::InsufficientApprovals),
        ),
{
}

/// Nothing leaves `Executed`: an executed proposal takes neither approvals
/// nor another execution.
pub proof fn lemma_executed_is_final(
    approval: ApproveProposal,
    execution: ExecuteReputationProposal,
    now: i64,
)
    requires
        approval.proposal.status == ProposalStatus::Executed,
        execution.proposal.status == ProposalStatus::Executed,
    ensures
        approve_rejection(approval, now) == Some(
            RegistryError::Multisig(MultisigError::ProposalAlreadyExecuted),
        ),
        execute_rejection(execution) == Some(
            RegistryError::Multisig(MultisigError::InsufficientApprovals),
        ),
{
}

/// A signer approves a proposal at most once: after an accepted approval, a
/// further one by the same signer under the same roster is refused at every
/// time, and with `AlreadyApproved` as long as the proposal has not expired.
/// Being refused, it leaves the approval count as it is.
pub proof fn lemma_second_approval_is_refused(ctx: ApproveProposal, now: i64, later: i64)
    requires
        ctx.multisig.signers@.len() <= MAX_MULTISIG_SIGNERS,
        approve_rejection(ctx, now) is None,
    ensures
        approve_rejection(approve_effect(ctx), later) is Some,
        !ctx.proposal.spec_is_expired(later) && ctx.multisig.is_active ==> approve_rejection(
            approve_effect(ctx),
            later,
        ) == Some(RegistryError::Multisig(MultisigError::AlreadyApproved)),
{
    ctx.multisig.signers@.index_of_first_ensures(ctx.signer);
    let index = ctx.multisig.signer_index(ctx.signer).unwrap() as u8;
    lemma_set_bit_adds_approver(ctx.proposal.approval_bitmap, index);
}

/// An approval only ever adds: the signer joins those that have approved and
/// nobody leaves them, the status moves from `Pending` to `Approved` or not
/// at all, and a count that equals the number of approving signers goes on
/// doing so. The proposal is `Approved` afterwards exactly if it was before
/// or the count now reaches the threshold.
pub proof fn lemma_approval_only_adds(ctx: ApproveProposal, now: i64)
    requires
        ctx.multisig.signers@.len() <= MAX_MULTISIG_SIGNERS,
        approve_rejection(ctx, now) is None,
    ensures
        approve_effect(ctx).proposal.approved_by() == ctx.proposal.approved_by().insert(
            ctx.multisig.signer_index(ctx.signer).unwrap(),
        ),
        ctx.proposal.approved_by().subset_of(approve_effect(ctx).proposal.approved_by()),
        approve_effect(ctx).proposal.status == ctx.proposal.status || (ctx.proposal.status
            == ProposalStatus::Pending && approve_effect(ctx).proposal.status
            == ProposalStatus::Approved),
        ctx.proposal.wf() ==> approve_effect(ctx).proposal.wf()
            && approve_effect(ctx).proposal.approval_count == ctx.proposal.approval_count + 1,
        approve_effect(ctx).proposal.status == ProposalStatus::Approved <==> (
        ctx.proposal.status == ProposalStatus::Approved || approve_effect(
            ctx,
        ).proposal.approval_count >= ctx.multisig.threshold),
{
    ctx.multisig.signers@.index_of_first_ensures(ctx.signer);
    let index = ctx.multisig.signer_index(ctx.signer).unwrap() as u8;
    lemma_set_bit_adds_approver(ctx.proposal.approval_bitmap, index);
    lemma_approvers_bounded(ctx.proposal.approval_bitmap);
}

// ---------------------------------------------------------------------------
// Roster changes
// ---------------------------------------------------------------------------

/// Whether two rosters differ in their signers at most.
pub open spec fn same_but_signers(before: MultisigAuthority, after: MultisigAuthority) -> bool {
    after == (MultisigAuthority { signers: after.signers, ..before })
}

/// What adding a signer touches: the roster and who signed.
#[derive(Clone, Debug)]
pub struct AddSigner {
    pub multisig: MultisigAuthority,
    /// The signer of the request.
    pub admin: Address,
}

/// The first reason, if any, for which a signer is not added.
pub open spec fn add_signer_rejection(ctx: AddSigner, new_signer: Address) -> Option<
    RegistryError,
> {
    if ctx.multisig.admin != ctx.admin {
        Some(RegistryError::Multisig(MultisigError::UnauthorizedAdmin))
    } else if ctx.multisig.signers@.len() >= MAX_MULTISIG_SIGNERS {
        Some(RegistryError::Multisig(MultisigError::MaxSignersReached))
    } else if ctx.multisig.signers@.contains(new_signer) {
        Some(RegistryError::Multisig(MultisigError::SignerAlreadyExists))
    } else {
        None
    }
}

/// Adds a signer at the end of the roster. Only the admin may.
pub fn add_signer(ctx: &mut AddSigner, new_signer: Address) -> (r: Result<(), RegistryError>)
    ensures
        match r {
            Ok(()) => {
                &&& add_signer_rejection(*old(ctx), new_signer) is None
                &&& final(ctx).admin == old(ctx).admin
                &&& final(ctx).multisig.signers@ == old(ctx).multisig.signers@.push(new_signer)
                &&& same_but_signers(old(ctx).multisig, final(ctx).multisig)
                &&& old(ctx).multisig.wf() ==> final(ctx).multisig.wf()
            },
            Err(e) => {
                &&& add_signer_rejection(*old(ctx), new_signer) == Some(e)
                &&& *final(ctx) == *old(ctx)
            },
        },
{
    if !ctx.multisig.admin.equals(&ctx.admin) {
        return Err(RegistryError::Multisig(MultisigError::UnauthorizedAdmin));
    }
    if ctx.multisig.signers.len() >= MAX_MULTISIG_SIGNERS {
        return Err(RegistryError::Multisig(MultisigError::MaxSignersReached));
    }
    if ctx.multisig.position_of(&new_signer).is_some() {
        return Err(RegistryError::Multisig(MultisigError::SignerAlreadyExists));
    }
    ctx.multisig.signers.push(new_signer);
    Ok(())
}

/// What removing a signer touches: the roster and who signed.
#[derive(Clone, Debug)]
pub struct RemoveSigner {
    pub multisig: MultisigAuthority,
    /// The signer of the request.
    pub admin: Address,
}

/// The first reason, if any, for which a signer is not removed.
pub open spec fn remove_signer_rejection(ctx: RemoveSigner, signer_to_remove: Address) -> Option<
    RegistryError,
> {
    if ctx.multisig.admin != ctx.admin {
        Some(RegistryError::Multisig(MultisigError::UnauthorizedAdmin))
    } else if !ctx.multisig.signers@.contains(signer_to_remove) {
        Some(RegistryError::Multisig(MultisigError::SignerNotFound))
    } else if ctx.multisig.signers@.len() <= ctx.multisig.threshold {
        Some(RegistryError::Multisig(MultisigError::WouldGobelowThreshold))
    } else {
        None
    }
}

/// Removes a signer from the roster, unless the roster would then be smaller
/// than the threshold. Only the admin may.
pub fn remove_signer(ctx: &mut RemoveSigner, signer_to_remove: Address) -> (r: Result<
    (),
    RegistryError,
>)
    ensures
        match r {
            Ok(()) => {
                &&& remove_signer_rejection(*old(ctx), signer_to_remove) is None
                &&& final(ctx).admin == old(ctx).admin
                &&& final(ctx).multisig.signers@ == old(ctx).multisig.signers@.remove(
                    old(ctx).multisig.signer_index(signer_to_remove).unwrap(),
                )
                &&& final(ctx).multisig.signers@.len() >= final(ctx).multisig.threshold
                &&& same_but_signers(old(ctx).multisig, final(ctx).multisig)
                &&& old(ctx).multisig.wf() ==> final(ctx).multisig.wf()
            },
            Err(e) => {
                &&& remove_signer_rejection(*old(ctx), signer_to_remove) == Some(e)
                &&& *final(ctx) == *old(ctx)
            },
        },
{
    if !ctx.multisig.admin.equals(&ctx.admin) {
        return Err(RegistryError::Multisig(MultisigError::UnauthorizedAdmin));
    }
    let index: usize = match ctx.multisig.position_of(&signer_to_remove) {
        Some(i) => i,
        None => { return Err(RegistryError::Multisig(MultisigError::SignerNotFound)); },
    };
    if ctx.multisig.signers.len() <= ctx.multisig.threshold as usize {
        return Err(RegistryError::Multisig(MultisigError::WouldGobelowThreshold));
    }
    ctx.multisig.signers.remove(index);
    Ok(())
}

/// What changing the threshold touches: the roster and who signed.
#[derive(Clone, Debug)]
pub struct UpdateThreshold {
    pub multisig: MultisigAuthority,
    /// The signer of the request.
    pub admin: Address,
}

/// The first reason, if any, for which a threshold is not taken.
pub open spec fn update_threshold_rejection(ctx: UpdateThreshold, new_threshold: u8) -> Option<
    RegistryError,
> {
    if ctx.multisig.admin != ctx.admin {
        Some(RegistryError::Multisig(MultisigError::UnauthorizedAdmin))
    } else if new_threshold == 0 || new_threshold > ctx.multisig.signers@.len() {
        Some(RegistryError::Multisig(MultisigError::InvalidThreshold))
    } else {
        None
    }
}

/// Sets the number of approvals that a proposal needs. Only the admin may.
pub fn update_threshold(ctx: &mut UpdateThreshold, new_threshold: u8) -> (r: Result<
    (),
    RegistryError,
>)
    ensures
        match r {
            Ok(()) => {
                &&& update_threshold_rejection(*old(ctx), new_threshold) is None
                &&& *final(ctx) == (UpdateThreshold {
                    multisig: MultisigAuthority { threshold: new_threshold, ..old(ctx).multisig },
                    ..*old(ctx)
                })
                &&& old(ctx).multisig.wf() ==> final(ctx).multisig.wf()
            },
            Err(e) => {
                &&& update_threshold_rejection(*old(ctx), new_threshold) == Some(e)
                &&& *final(ctx) == *old(ctx)
            },
        },
{
    if !ctx.multisig.admin.equals(&ctx.admin) {
        return Err(RegistryError::Multisig(MultisigError::UnauthorizedAdmin));
    }
    if new_threshold == 0 || new_threshold as usize > ctx.multisig.signers.len() {
        return Err(RegistryError::Multisig(MultisigError::InvalidThreshold));
    }
    ctx.multisig.threshold = new_threshold;
    Ok(())
}

/// What pausing touches: the roster and who signed.
#[derive(Clone, Debug)]
pub struct PauseMultisig {
    pub multisig: MultisigAuthority,
    /// The signer of the request.
    pub admin: Address,
}

/// Stops proposals, approvals and executions. Only the admin may.
pub fn pause_multisig(ctx: &mut PauseMultisig) -> (r: Result<(), RegistryError>)
    ensures
        r is Ok <==> old(ctx).multisig.admin == old(ctx).admin,
        r is Err ==> r == Err::<(), RegistryError>(
            RegistryError::Multisig(MultisigError::UnauthorizedAdmin),
        ) && *final(ctx) == *old(ctx),
        r is Ok ==> *final(ctx) == (PauseMultisig {
            multisig: MultisigAuthority { is_active: false, ..old(ctx).multisig },
            ..*old(ctx)
        }),
{
    if !ctx.multisig.admin.equals(&ctx.admin) {
        return Err(RegistryError::Multisig(MultisigError::UnauthorizedAdmin));
    }
    ctx.multisig.is_active = false;
    Ok(())
}

/// Lets the multisig work again. Only the admin may.
pub fn unpause_multisig(ctx: &mut PauseMultisig) -> (r: Result<(), RegistryError>)
    ensures
        r is Ok <==> old(ctx).multisig.admin == old(ctx).admin,
        r is Err ==> r == Err::<(), RegistryError>(
            RegistryError::Multisig(MultisigError::UnauthorizedAdmin),
        ) && *final(ctx) == *old(ctx),
        r is Ok ==> *final(ctx) == (PauseMultisig {
            multisig: MultisigAuthority { is_active: true, ..old(ctx).multisig },
            ..*old(ctx)
        }),
{
    if !ctx.multisig.admin.equals(&ctx.admin) {
        return Err(RegistryError::Multisig(MultisigError::UnauthorizedAdmin));
    }
    ctx.multisig.is_active = true;
    Ok(())
}

} // verus!
