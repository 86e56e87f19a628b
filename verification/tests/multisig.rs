use agent_trust::address::Address;
use agent_trust::reputation_registry::error::{RegistryError, ReputationError};
use agent_trust::reputation_registry::multisig::{
    add_signer, approve_proposal, execute_reputation_proposal, initialize_multisig,
    pause_multisig, propose_reputation_update, remove_signer, unpause_multisig, update_threshold,
    AddSigner, ApproveProposal, ExecuteReputationProposal, InitializeMultisig, MultisigError,
    PauseMultisig, ProposeReputationUpdate, RemoveSigner, UpdateThreshold,
};
use agent_trust::reputation_registry::state::{
    AgentReputation, ComponentScores, MultisigAuthority, MultisigProposal, ProposalStatus,
    ProposalType, ReputationStats, MAX_MULTISIG_SIGNERS, PROPOSAL_EXPIRY_SECONDS,
};

const HOUR: i64 = 3_600;

fn addr(n: u8) -> Address {
    Address::new([n; 32])
}

fn admin() -> Address {
    addr(100)
}

fn target() -> Address {
    addr(50)
}

fn blank_multisig() -> MultisigAuthority {
    MultisigAuthority {
        signers: Vec::new(),
        threshold: 0,
        proposal_count: 77,
        admin: addr(0),
        is_active: false,
        created_at: 0,
        bump: 0,
    }
}

fn blank_proposal() -> MultisigProposal {
    MultisigProposal {
        proposal_id: 999,
        proposal_type: ProposalType::EmergencyPause,
        proposer: addr(0),
        target_agent: addr(0),
        proposed_score: 0,
        proposed_components: ComponentScores::default(),
        proposed_stats: ReputationStats::default(),
        proposed_merkle_root: [0u8; 32],
        target_signer: addr(9),
        new_threshold: 9,
        approval_bitmap: 0xff,
        approval_count: 200,
        status: ProposalStatus::Rejected,
        created_at: 0,
        executed_at: 5,
        bump: 0,
    }
}

fn reputation_of(agent: Address) -> AgentReputation {
    AgentReputation {
        agent_address: agent,
        overall_score: 100,
        component_scores: ComponentScores::default(),
        stats: ReputationStats::default(),
        payment_proofs_merkle_root: [0u8; 32],
        last_updated: 0,
        bump: 1,
        base_score: 90,
        last_activity: 3,
        decay_enabled: true,
        decay_rate_bps: 10_000,
    }
}

fn multisig(signers: u8, threshold: u8) -> MultisigAuthority {
    let mut ctx = InitializeMultisig { multisig: blank_multisig(), admin: admin() };
    let roster: Vec<Address> = (1..=signers).map(addr).collect();
    assert_eq!(initialize_multisig(&mut ctx, roster, threshold, 10, 3), Ok(()));
    ctx.multisig
}

fn components() -> ComponentScores {
    ComponentScores { trust: 90, quality: 80, reliability: 70, economic: 60, social: 50 }
}

fn stats() -> ReputationStats {
    ReputationStats {
        total_votes: 40,
        positive_votes: 30,
        negative_votes: 10,
        total_reviews: 12,
        avg_review_rating: 47,
    }
}

fn proposed(m: MultisigAuthority, proposer: Address, now: i64) -> (MultisigAuthority, MultisigProposal) {
    let mut ctx = ProposeReputationUpdate {
        multisig: m,
        proposal: blank_proposal(),
        target_agent: target(),
        proposer,
    };
    let id = ctx.multisig.proposal_count;
    assert_eq!(
        propose_reputation_update(&mut ctx, 850, components(), stats(), [7u8; 32], now, 4),
        Ok(id)
    );
    (ctx.multisig, ctx.proposal)
}

#[test]
fn multisig_is_set_up_active() {
    let m = multisig(5, 3);
    assert_eq!(m.signers, vec![addr(1), addr(2), addr(3), addr(4), addr(5)]);
    assert_eq!(m.threshold, 3);
    assert_eq!(m.proposal_count, 0);
    assert_eq!(m.admin, admin());
    assert!(m.is_active);
    assert_eq!(m.created_at, 10);
    assert_eq!(m.bump, 3);
    assert_eq!(MAX_MULTISIG_SIGNERS, 7);
    assert_eq!(PROPOSAL_EXPIRY_SECONDS, 48 * HOUR);
}

#[test]
fn multisig_set_up_errors() {
    let mut ctx = InitializeMultisig { multisig: blank_multisig(), admin: admin() };
    assert_eq!(
        initialize_multisig(&mut ctx, Vec::new(), 1, 0, 0),
        Err(RegistryError::Multisig(MultisigError::MaxSignersReached))
    );
    assert_eq!(
        initialize_multisig(&mut ctx, (1..=8).map(addr).collect(), 1, 0, 0),
        Err(RegistryError::Multisig(MultisigError::MaxSignersReached))
    );
    assert_eq!(
        initialize_multisig(&mut ctx, (1..=3).map(addr).collect(), 0, 0, 0),
        Err(RegistryError::Multisig(MultisigError::InvalidThreshold))
    );
    assert_eq!(
        initialize_multisig(&mut ctx, (1..=3).map(addr).collect(), 4, 0, 0),
        Err(RegistryError::Multisig(MultisigError::InvalidThreshold))
    );
    assert_eq!(ctx.multisig.proposal_count, 77);
    assert!(ctx.multisig.signers.is_empty());
    assert_eq!(initialize_multisig(&mut ctx, (1..=7).map(addr).collect(), 7, 0, 0), Ok(()));
    assert_eq!(initialize_multisig(&mut ctx, vec![addr(1)], 1, 0, 0), Ok(()));
}

#[test]
fn position_of_finds_the_first_match() {
    let mut m = multisig(3, 2);
    assert_eq!(m.position_of(&addr(1)), Some(0));
    assert_eq!(m.position_of(&addr(3)), Some(2));
    assert_eq!(m.position_of(&addr(4)), None);
    m.signers = vec![addr(2), addr(5), addr(2)];
    assert_eq!(m.position_of(&addr(2)), Some(0));
    m.signers.clear();
    assert_eq!(m.position_of(&addr(2)), None);
}

#[test]
fn proposal_is_filed_with_the_proposers_approval() {
    let (m, p) = proposed(multisig(5, 3), addr(3), 1_000);
    assert_eq!(m.proposal_count, 1);
    assert_eq!(p.proposal_id, 0);
    assert_eq!(p.proposal_type, ProposalType::UpdateReputation);
    assert_eq!(p.proposer, addr(3));
    assert_eq!(p.target_agent, target());
    assert_eq!(p.proposed_score, 850);
    assert_eq!(p.proposed_components, components());
    assert_eq!(p.proposed_stats, stats());
    assert_eq!(p.proposed_merkle_root, [7u8; 32]);
    assert_eq!(p.target_signer, Address::zero());
    assert_eq!(p.new_threshold, 0);
    assert_eq!(p.approval_bitmap, 0b100);
    assert_eq!(p.approval_count, 1);
    assert_eq!(p.status, ProposalStatus::Pending);
    assert_eq!(p.created_at, 1_000);
    assert_eq!(p.executed_at, 0);
    assert_eq!(p.bump, 4);
    assert!(p.has_approved(2));
    assert!(!p.has_approved(0));
    let (m, second) = proposed(m, addr(1), 2_000);
    assert_eq!(second.proposal_id, 1);
    assert_eq!(second.approval_bitmap, 0b1);
    assert_eq!(m.proposal_count, 2);
}

#[test]
fn proposal_errors() {
    let mut ctx = ProposeReputationUpdate {
        multisig: multisig(5, 3),
        proposal: blank_proposal(),
        target_agent: target(),
        proposer: addr(6),
    };
    assert_eq!(
        propose_reputation_update(&mut ctx, 1, components(), stats(), [0u8; 32], 0, 0),
        Err(RegistryError::Multisig(MultisigError::UnauthorizedSigner))
    );
    ctx.multisig.is_active = false;
    assert_eq!(
        propose_reputation_update(&mut ctx, 1, components(), stats(), [0u8; 32], 0, 0),
        Err(RegistryError::Multisig(MultisigError::MultisigPaused))
    );
    ctx.proposer = addr(1);
    assert_eq!(
        propose_reputation_update(&mut ctx, 1, components(), stats(), [0u8; 32], 0, 0),
        Err(RegistryError::Multisig(MultisigError::MultisigPaused))
    );
    ctx.multisig.is_active = true;
    ctx.multisig.proposal_count = u64::MAX;
    assert_eq!(
        propose_reputation_update(&mut ctx, 1, components(), stats(), [0u8; 32], 0, 0),
        Err(RegistryError::Reputation(ReputationError::ArithmeticOverflow))
    );
    assert_eq!(ctx.proposal.proposal_id, 999);
    assert_eq!(ctx.proposal.status, ProposalStatus::Rejected);
    assert_eq!(ctx.multisig.proposal_count, u64::MAX);
    ctx.multisig.proposal_count = u64::MAX - 1;
    assert_eq!(
        propose_reputation_update(&mut ctx, 1, components(), stats(), [0u8; 32], 0, 0),
        Ok(u64::MAX - 1)
    );
    assert_eq!(ctx.multisig.proposal_count, u64::MAX);
}

#[test]
fn three_of_five_scenario() {
    let (m, p) = proposed(multisig(5, 3), addr(1), 1_000);
    assert_eq!(p.approval_count, 1);
    assert_eq!(p.status, ProposalStatus::Pending);

    let mut ctx = ApproveProposal { multisig: m.clone(), proposal: p, signer: addr(2) };
    assert_eq!(approve_proposal(&mut ctx, 1_500), Ok(()));
    assert_eq!(ctx.proposal.approval_count, 2);
    assert_eq!(ctx.proposal.status, ProposalStatus::Pending);

    let mut early = ExecuteReputationProposal {
        multisig: m.clone(),
        proposal: ctx.proposal,
        agent_reputation: reputation_of(target()),
        executor: addr(1),
    };
    assert_eq!(
        execute_reputation_proposal(&mut early, 1_600),
        Err(RegistryError::Multisig(MultisigError::InsufficientApprovals))
    );
    assert_eq!(early.agent_reputation.overall_score, 100);

    ctx.signer = addr(4);
    assert_eq!(approve_proposal(&mut ctx, 2_000), Ok(()));
    assert_eq!(ctx.proposal.approval_count, 3);
    assert_eq!(ctx.proposal.status, ProposalStatus::Approved);
    assert_eq!(ctx.proposal.approval_bitmap, 0b1011);

    ctx.signer = addr(5);
    assert_eq!(approve_proposal(&mut ctx, 2_500), Ok(()));
    assert_eq!(ctx.proposal.approval_count, 4);
    assert_eq!(ctx.proposal.status, ProposalStatus::Approved);
    assert_eq!(ctx.proposal.approval_bitmap, 0b11011);

    let mut exec = ExecuteReputationProposal {
        multisig: m,
        proposal: ctx.proposal,
        agent_reputation: reputation_of(target()),
        executor: addr(3),
    };
    assert_eq!(execute_reputation_proposal(&mut exec, 3_000), Ok(()));
    assert_eq!(exec.proposal.status, ProposalStatus::Executed);
    assert_eq!(exec.proposal.executed_at, 3_000);
    assert_eq!(exec.proposal.approval_count, 4);
    assert_eq!(exec.agent_reputation.overall_score, 850);
    assert_eq!(exec.agent_reputation.base_score, 850);
    assert_eq!(exec.agent_reputation.component_scores, components());
    assert_eq!(exec.agent_reputation.stats, stats());
    assert_eq!(exec.agent_reputation.payment_proofs_merkle_root, [7u8; 32]);
    assert_eq!(exec.agent_reputation.last_updated, 3_000);
    assert_eq!(exec.agent_reputation.last_activity, 3);
    assert!(exec.agent_reputation.decay_enabled);

    exec.agent_reputation.overall_score = 1;
    assert_eq!(
        execute_reputation_proposal(&mut exec, 3_001),
        Err(RegistryError::Multisig(MultisigError::InsufficientApprovals))
    );
    assert_eq!(exec.agent_reputation.overall_score, 1);
    assert_eq!(exec.proposal.executed_at, 3_000);
    assert_eq!(exec.proposal.status, ProposalStatus::Executed);
}

#[test]
fn second_approval_by_the_same_signer_is_refused() {
    let (m, p) = proposed(multisig(5, 3), addr(1), 1_000);
    let mut ctx = ApproveProposal { multisig: m, proposal: p, signer: addr(1) };
    assert_eq!(
        approve_proposal(&mut ctx, 1_001),
        Err(RegistryError::Multisig(MultisigError::AlreadyApproved))
    );
    assert_eq!(ctx.proposal.approval_count, 1);
    ctx.signer = addr(2);
    assert_eq!(approve_proposal(&mut ctx, 1_002), Ok(()));
    assert_eq!(
        approve_proposal(&mut ctx, 1_003),
        Err(RegistryError::Multisig(MultisigError::AlreadyApproved))
    );
    assert_eq!(ctx.proposal.approval_count, 2);
    assert_eq!(ctx.proposal.approval_bitmap, 0b11);
    assert_eq!(ctx.proposal.status, ProposalStatus::Pending);
}

#[test]
fn approval_errors_in_order() {
    let (m, p) = proposed(multisig(5, 3), addr(1), 1_000);
    let deadline = 1_000 + 48 * HOUR;
    let mut ctx = ApproveProposal { multisig: m, proposal: p, signer: addr(9) };
    assert_eq!(
        approve_proposal(&mut ctx, deadline),
        Err(RegistryError::Multisig(MultisigError::UnauthorizedSigner))
    );
    ctx.multisig.is_active = false;
    assert_eq!(
        approve_proposal(&mut ctx, deadline),
        Err(RegistryError::Multisig(MultisigError::MultisigPaused))
    );
    assert_eq!(
        approve_proposal(&mut ctx, deadline + 1),
        Err(RegistryError::Multisig(MultisigError::ProposalExpired))
    );
    for status in [ProposalStatus::Executed, ProposalStatus::Rejected, ProposalStatus::Expired] {
        ctx.proposal.status = status;
        assert_eq!(
            approve_proposal(&mut ctx, deadline + 1),
            Err(RegistryError::Multisig(MultisigError::ProposalAlreadyExecuted))
        );
    }
    assert_eq!(ctx.proposal.approval_count, 1);
    assert_eq!(ctx.proposal.approval_bitmap, 1);
}

#[test]
fn approval_is_taken_up_to_the_deadline() {
    let (m, p) = proposed(multisig(3, 2), addr(1), 1_000);
    assert!(!p.is_expired(1_000 + 48 * HOUR));
    assert!(p.is_expired(1_000 + 48 * HOUR + 1));
    assert!(!p.is_expired(i64::MIN));
    let mut late = p;
    late.created_at = i64::MAX - 5;
    assert!(!late.is_expired(i64::MAX));
    let mut ctx = ApproveProposal { multisig: m, proposal: p, signer: addr(2) };
    assert_eq!(
        approve_proposal(&mut ctx, 1_000 + 48 * HOUR + 1),
        Err(RegistryError::Multisig(MultisigError::ProposalExpired))
    );
    assert_eq!(approve_proposal(&mut ctx, 1_000 + 48 * HOUR), Ok(()));
    assert_eq!(ctx.proposal.status, ProposalStatus::Approved);
    ctx.signer = addr(3);
    assert_eq!(
        approve_proposal(&mut ctx, 1_000 + 48 * HOUR + 1),
        Err(RegistryError::Multisig(MultisigError::ProposalExpired))
    );
    assert_eq!(ctx.proposal.approval_count, 2);
}

#[test]
fn execution_errors_in_order() {
    let (m, p) = proposed(multisig(2, 2), addr(1), 0);
    let mut approve = ApproveProposal { multisig: m.clone(), proposal: p, signer: addr(2) };
    assert_eq!(approve_proposal(&mut approve, 1), Ok(()));
    let mut ctx = ExecuteReputationProposal {
        multisig: m,
        proposal: approve.proposal,
        agent_reputation: reputation_of(target()),
        executor: addr(7),
    };
    assert_eq!(
        execute_reputation_proposal(&mut ctx, 2),
        Err(RegistryError::Multisig(MultisigError::UnauthorizedSigner))
    );
    ctx.multisig.is_active = false;
    assert_eq!(
        execute_reputation_proposal(&mut ctx, 2),
        Err(RegistryError::Multisig(MultisigError::MultisigPaused))
    );
    ctx.agent_reputation.agent_address = addr(51);
    assert_eq!(execute_reputation_proposal(&mut ctx, 2), Err(RegistryError::AccountMismatch));
    ctx.proposal.proposal_type = ProposalType::AddSigner;
    assert_eq!(
        execute_reputation_proposal(&mut ctx, 2),
        Err(RegistryError::Reputation(ReputationError::InvalidAuthority))
    );
    ctx.proposal.status = ProposalStatus::Pending;
    assert_eq!(
        execute_reputation_proposal(&mut ctx, 2),
        Err(RegistryError::Multisig(MultisigError::InsufficientApprovals))
    );
    assert_eq!(ctx.agent_reputation.overall_score, 100);
    assert_eq!(ctx.proposal.executed_at, 0);
}

#[test]
fn execution_does_not_look_at_the_deadline() {
    let (m, p) = proposed(multisig(2, 2), addr(1), 0);
    let mut approve = ApproveProposal { multisig: m.clone(), proposal: p, signer: addr(2) };
    assert_eq!(approve_proposal(&mut approve, 1), Ok(()));
    let mut ctx = ExecuteReputationProposal {
        multisig: m,
        proposal: approve.proposal,
        agent_reputation: reputation_of(target()),
        executor: addr(2),
    };
    assert_eq!(execute_reputation_proposal(&mut ctx, 1_000 * HOUR), Ok(()));
    assert_eq!(ctx.proposal.executed_at, 1_000 * HOUR);
}

#[test]
fn threshold_of_one_still_needs_a_second_approval() {
    let (m, p) = proposed(multisig(2, 1), addr(1), 0);
    assert_eq!(p.status, ProposalStatus::Pending);
    let mut ctx = ApproveProposal { multisig: m, proposal: p, signer: addr(2) };
    assert_eq!(approve_proposal(&mut ctx, 1), Ok(()));
    assert_eq!(ctx.proposal.status, ProposalStatus::Approved);
    assert_eq!(ctx.proposal.approval_count, 2);
}

#[test]
fn bitmap_helpers() {
    let mut p = blank_proposal();
    p.approval_bitmap = 0;
    p.approval_count = 0;
    for index in 0..8u8 {
        assert!(!p.has_approved(index));
    }
    p.record_approval(6);
    assert_eq!(p.approval_bitmap, 0b100_0000);
    assert_eq!(p.approval_count, 1);
    p.record_approval(0);
    p.record_approval(7);
    assert_eq!(p.approval_bitmap, 0b1100_0001);
    assert_eq!(p.approval_count, 3);
    assert!(p.has_approved(0) && p.has_approved(6) && p.has_approved(7));
    assert!(!p.has_approved(1) && !p.has_approved(5));
    p.record_approval(0);
    assert_eq!(p.approval_bitmap, 0b1100_0001);
    assert_eq!(p.approval_count, 4);
    assert!(p.has_quorum(4));
    assert!(p.has_quorum(0));
    assert!(!p.has_quorum(5));
    p.approval_count = u8::MAX;
    p.record_approval(1);
    assert_eq!(p.approval_count, u8::MAX);
    assert_eq!(ProposalStatus::default(), ProposalStatus::Pending);
}

#[test]
fn signer_is_added_at_the_end() {
    let mut ctx = AddSigner { multisig: multisig(3, 2), admin: addr(1) };
    assert_eq!(
        add_signer(&mut ctx, addr(8)),
        Err(RegistryError::Multisig(MultisigError::UnauthorizedAdmin))
    );
    ctx.admin = admin();
    assert_eq!(
        add_signer(&mut ctx, addr(2)),
        Err(RegistryError::Multisig(MultisigError::SignerAlreadyExists))
    );
    assert_eq!(add_signer(&mut ctx, addr(8)), Ok(()));
    assert_eq!(ctx.multisig.signers, vec![addr(1), addr(2), addr(3), addr(8)]);
    assert_eq!(ctx.multisig.threshold, 2);
    for n in 9..12 {
        assert_eq!(add_signer(&mut ctx, addr(n)), Ok(()));
    }
    assert_eq!(ctx.multisig.signers.len(), 7);
    assert_eq!(
        add_signer(&mut ctx, addr(12)),
        Err(RegistryError::Multisig(MultisigError::MaxSignersReached))
    );
    assert_eq!(
        add_signer(&mut ctx, addr(1)),
        Err(RegistryError::Multisig(MultisigError::MaxSignersReached))
    );
    assert_eq!(ctx.multisig.signers.len(), 7);
}

#[test]
fn signer_is_removed_unless_the_threshold_forbids() {
    let mut ctx = RemoveSigner { multisig: multisig(4, 3), admin: addr(1) };
    assert_eq!(
        remove_signer(&mut ctx, addr(2)),
        Err(RegistryError::Multisig(MultisigError::UnauthorizedAdmin))
    );
    ctx.admin = admin();
    assert_eq!(
        remove_signer(&mut ctx, addr(9)),
        Err(RegistryError::Multisig(MultisigError::SignerNotFound))
    );
    assert_eq!(remove_signer(&mut ctx, addr(2)), Ok(()));
    assert_eq!(ctx.multisig.signers, vec![addr(1), addr(3), addr(4)]);
    assert_eq!(
        remove_signer(&mut ctx, addr(3)),
        Err(RegistryError::Multisig(MultisigError::WouldGobelowThreshold))
    );
    assert_eq!(
        remove_signer(&mut ctx, addr(2)),
        Err(RegistryError::Multisig(MultisigError::SignerNotFound))
    );
    assert_eq!(ctx.multisig.signers, vec![addr(1), addr(3), addr(4)]);
    assert_eq!(ctx.multisig.threshold, 3);
}

#[test]
fn threshold_stays_within_the_roster() {
    let mut ctx = UpdateThreshold { multisig: multisig(4, 3), admin: addr(1) };
    assert_eq!(
        update_threshold(&mut ctx, 2),
        Err(RegistryError::Multisig(MultisigError::UnauthorizedAdmin))
    );
    ctx.admin = admin();
    assert_eq!(
        update_threshold(&mut ctx, 0),
        Err(RegistryError::Multisig(MultisigError::InvalidThreshold))
    );
    assert_eq!(
        update_threshold(&mut ctx, 5),
        Err(RegistryError::Multisig(MultisigError::InvalidThreshold))
    );
    assert_eq!(ctx.multisig.threshold, 3);
    assert_eq!(update_threshold(&mut ctx, 4), Ok(()));
    assert_eq!(ctx.multisig.threshold, 4);
    assert_eq!(update_threshold(&mut ctx, 1), Ok(()));
    assert_eq!(ctx.multisig.threshold, 1);
}

#[test]
fn multisig_pause_and_unpause() {
    let mut ctx = PauseMultisig { multisig: multisig(3, 2), admin: addr(1) };
    assert_eq!(
        pause_multisig(&mut ctx),
        Err(RegistryError::Multisig(MultisigError::UnauthorizedAdmin))
    );
    assert!(ctx.multisig.is_active);
    ctx.admin = admin();
    assert_eq!(pause_multisig(&mut ctx), Ok(()));
    assert!(!ctx.multisig.is_active);
    ctx.admin = addr(1);
    assert_eq!(
        unpause_multisig(&mut ctx),
        Err(RegistryError::Multisig(MultisigError::UnauthorizedAdmin))
    );
    assert!(!ctx.multisig.is_active);
    ctx.admin = admin();
    assert_eq!(unpause_multisig(&mut ctx), Ok(()));
    assert!(ctx.multisig.is_active);
    assert_eq!(ctx.multisig.signers.len(), 3);
}

#[test]
fn approvals_count_distinct_signers_in_every_order() {
    for threshold in 1..=7u8 {
        for start in 0..7usize {
            for step in [1usize, 2, 3, 4, 5, 6] {
                let (m, p) = proposed(multisig(7, threshold), addr(start as u8 + 1), 0);
                let mut ctx = ApproveProposal { multisig: m, proposal: p, signer: addr(1) };
                let mut approved = 1u32;
                let mut seen: u8 = 1 << start;
                for k in 1..14usize {
                    let index = (start + k * step) % 7;
                    ctx.signer = addr(index as u8 + 1);
                    let before = ctx.proposal;
                    let outcome = approve_proposal(&mut ctx, 5);
                    if seen & (1 << index) != 0 {
                        assert_eq!(
                            outcome,
                            Err(RegistryError::Multisig(MultisigError::AlreadyApproved))
                        );
                        assert_eq!(ctx.proposal.approval_count, before.approval_count);
                        assert_eq!(ctx.proposal.approval_bitmap, before.approval_bitmap);
                        assert_eq!(ctx.proposal.status, before.status);
                    } else {
                        assert_eq!(outcome, Ok(()));
                        seen |= 1 << index;
                        approved += 1;
                    }
                    assert_eq!(ctx.proposal.approval_bitmap, seen);
                    assert_eq!(ctx.proposal.approval_count as u32, approved);
                    assert_eq!(ctx.proposal.approval_count as u32, seen.count_ones());
                    assert_eq!(ctx.proposal.approval_bitmap & before.approval_bitmap, before.approval_bitmap);
                    let reached = approved >= 2 && approved >= threshold as u32;
                    let expected = if reached || before.status == ProposalStatus::Approved {
                        ProposalStatus::Approved
                    } else {
                        ProposalStatus::Pending
                    };
                    assert_eq!(ctx.proposal.status, expected);
                }
            }
        }
    }
}

#[test]
fn proposal_with_scores_out_of_range_is_refused() {
    let mut ctx = ProposeReputationUpdate {
        multisig: multisig(3, 2),
        proposal: blank_proposal(),
        target_agent: target(),
        proposer: addr(1),
    };
    let mut bad_stats = stats();
    bad_stats.avg_review_rating = 51;
    let mut bad_components = components();
    bad_components.economic = 101;
    assert_eq!(
        propose_reputation_update(&mut ctx, 1_001, bad_components, bad_stats, [0u8; 32], 0, 0),
        Err(RegistryError::Reputation(ReputationError::InvalidOverallScore))
    );
    assert_eq!(
        propose_reputation_update(&mut ctx, u16::MAX, components(), stats(), [0u8; 32], 0, 0),
        Err(RegistryError::Reputation(ReputationError::InvalidOverallScore))
    );
    assert_eq!(
        propose_reputation_update(&mut ctx, 1_000, bad_components, bad_stats, [0u8; 32], 0, 0),
        Err(RegistryError::Reputation(ReputationError::InvalidComponentScore))
    );
    assert_eq!(
        propose_reputation_update(&mut ctx, 1_000, components(), bad_stats, [0u8; 32], 0, 0),
        Err(RegistryError::Reputation(ReputationError::InvalidReviewRating))
    );
    ctx.proposer = addr(9);
    assert_eq!(
        propose_reputation_update(&mut ctx, 1_001, components(), stats(), [0u8; 32], 0, 0),
        Err(RegistryError::Multisig(MultisigError::UnauthorizedSigner))
    );
    ctx.proposer = addr(1);
    ctx.multisig.proposal_count = u64::MAX;
    assert_eq!(
        propose_reputation_update(&mut ctx, 1_001, components(), stats(), [0u8; 32], 0, 0),
        Err(RegistryError::Reputation(ReputationError::InvalidOverallScore))
    );
    assert_eq!(ctx.proposal.proposal_id, 999);
    assert_eq!(ctx.multisig.proposal_count, u64::MAX);
    ctx.multisig.proposal_count = 4;
    let mut top = components();
    top.trust = 100;
    let mut best = stats();
    best.avg_review_rating = 50;
    assert_eq!(
        propose_reputation_update(&mut ctx, 1_000, top, best, [0u8; 32], 0, 0),
        Ok(4)
    );
    assert_eq!(ctx.proposal.proposed_score, 1_000);
}

#[test]
fn execution_does_not_write_scores_out_of_range() {
    let (m, p) = proposed(multisig(2, 2), addr(1), 0);
    let mut approve = ApproveProposal { multisig: m.clone(), proposal: p, signer: addr(2) };
    assert_eq!(approve_proposal(&mut approve, 1), Ok(()));
    let mut ctx = ExecuteReputationProposal {
        multisig: m,
        proposal: approve.proposal,
        agent_reputation: reputation_of(target()),
        executor: addr(2),
    };
    ctx.proposal.proposed_score = 65_535;
    ctx.proposal.proposed_components.trust = 255;
    assert_eq!(
        execute_reputation_proposal(&mut ctx, 9),
        Err(RegistryError::Reputation(ReputationError::InvalidOverallScore))
    );
    ctx.proposal.proposed_score = 1_000;
    assert_eq!(
        execute_reputation_proposal(&mut ctx, 9),
        Err(RegistryError::Reputation(ReputationError::InvalidComponentScore))
    );
    ctx.proposal.proposed_components.trust = 100;
    ctx.proposal.proposed_stats.avg_review_rating = 51;
    assert_eq!(
        execute_reputation_proposal(&mut ctx, 9),
        Err(RegistryError::Reputation(ReputationError::InvalidReviewRating))
    );
    ctx.executor = addr(7);
    assert_eq!(
        execute_reputation_proposal(&mut ctx, 9),
        Err(RegistryError::Multisig(MultisigError::UnauthorizedSigner))
    );
    assert_eq!(ctx.agent_reputation.overall_score, 100);
    assert_eq!(ctx.agent_reputation.base_score, 90);
    assert_eq!(ctx.proposal.status, ProposalStatus::Approved);
    ctx.executor = addr(2);
    ctx.proposal.proposed_stats.avg_review_rating = 50;
    assert_eq!(execute_reputation_proposal(&mut ctx, 9), Ok(()));
    assert_eq!(ctx.agent_reputation.overall_score, 1_000);
    assert_eq!(ctx.agent_reputation.component_scores.trust, 100);
}
