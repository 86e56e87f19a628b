//! Records of the reputation registry: an agent's reputation with its decay
//! settings, the multisig roster, and the proposals that the roster votes on.

use vstd::prelude::*;
use crate::address::Address;

verus! {

/// Highest overall score.
pub const MAX_OVERALL_SCORE: u16 = 1000;

/// Highest component score.
pub const MAX_COMPONENT_SCORE: u8 = 100;

/// Highest average review rating (tenths of a star).
pub const MAX_REVIEW_RATING: u8 = 50;

/// The five component scores, each 0 to 100.
#[derive(Clone, Copy, Debug, PartialEq, Eq, Structural)]
pub struct ComponentScores {
    pub trust: u8,
    pub quality: u8,
    pub reliability: u8,
    pub economic: u8,
    pub social: u8,
}

impl ComponentScores {
    /// Whether every component is within its range.
    pub open spec fn in_range(&self) -> bool {
        &&& self.trust <= MAX_COMPONENT_SCORE
        &&& self.quality <= MAX_COMPONENT_SCORE
        &&& self.reliability <= MAX_COMPONENT_SCORE
        &&& self.economic <= MAX_COMPONENT_SCORE
        &&& self.social <= MAX_COMPONENT_SCORE
    }
}

impl Default for ComponentScores {
    fn default() -> (scores: ComponentScores)
        ensures
            scores == (ComponentScores {
                trust: 0,
                quality: 0,
                reliability: 0,
                economic: 0,
                social: 0,
            }),
    {
        ComponentScores { trust: 0, quality: 0, reliability: 0, economic: 0, social: 0 }
    }
}

/// Tallies behind a reputation.
#[derive(Clone, Copy, Debug, PartialEq, Eq, Structural)]
pub struct ReputationStats {
    pub total_votes: u32,
    pub positive_votes: u32,
    pub negative_votes: u32,
    pub total_reviews: u32,
    /// 0 to 50: the rating times ten.
    pub avg_review_rating: u8,
}

impl Default for ReputationStats {
    fn default() -> (stats: ReputationStats)
        ensures
            stats == (ReputationStats {
                total_votes: 0,
                positive_votes: 0,
                negative_votes: 0,
                total_reviews: 0,
                avg_review_rating: 0,
            }),
    {
        ReputationStats {
            total_votes: 0,
            positive_votes: 0,
            negative_votes: 0,
            total_reviews: 0,
            avg_review_rating: 0,
        }
    }
}

/// Days of inactivity after which a score has halved once, at the standard rate.
pub const DECAY_HALF_LIFE_DAYS: i64 = 90;

/// The floor under every decayed score.
pub const DECAY_MIN_SCORE: u16 = 100;

/// Days of inactivity during which a score does not decay.
pub const DECAY_GRACE_PERIOD_DAYS: i64 = 30;

pub const SECONDS_PER_DAY: i64 = 86400;

/// Most halvings that decay ever applies.
pub const MAX_DECAY_PERIODS: u64 = 10;

/// Slowest and fastest decay rate, in basis points of the standard rate.
pub const MIN_DECAY_RATE_BPS: u16 = 100;

pub const MAX_DECAY_RATE_BPS: u16 = 10000;

/// Whole days between the last activity and `now`.
pub open spec fn days_inactive(last_activity: i64, now: i64) -> int {
    (now - last_activity) / (SECONDS_PER_DAY as int)
}

/// The number of halvings after the given days of inactivity: none within
/// the grace period, then one per half-life at the standard rate (10000) and
/// in proportion at any other rate, ten at most.
pub open spec fn decay_periods(days: int, decay_rate_bps: u16) -> int {
    if days <= DECAY_GRACE_PERIOD_DAYS {
        0
    } else {
        let periods = (days - DECAY_GRACE_PERIOD_DAYS) * decay_rate_bps / (DECAY_HALF_LIFE_DAYS
            * 10000);
        if periods <= MAX_DECAY_PERIODS as int { periods } else { MAX_DECAY_PERIODS as int }
    }
}

/// A score halved `periods` times, rounding down each time.
pub open spec fn halved(score: int, periods: int) -> int
    decreases periods,
{
    if periods <= 0 {
        score
    } else {
        halved(score, periods - 1) / 2
    }
}

/// The score that is left of `base_score` after the given days of inactivity:
/// the base itself within the grace period, afterwards the halved base, but
/// never less than the floor.
pub open spec fn decayed_score(base_score: u16, days: int, decay_rate_bps: u16) -> int {
    if days <= DECAY_GRACE_PERIOD_DAYS {
        base_score as int
    } else {
        let decayed = halved(base_score as int, decay_periods(days, decay_rate_bps));
        if decayed >= DECAY_MIN_SCORE as int { decayed } else { DECAY_MIN_SCORE as int }
    }
}

/// Halving keeps a score between zero and itself, and more halvings leave no more.
pub proof fn lemma_halved_bounds(score: int, fewer: int, more: int)
    requires
        0 <= score,
        fewer <= more,
    ensures
        0 <= halved(score, more) <= halved(score, fewer) <= score,
    decreases more,
{
    if more <= 0 {
    } else if fewer == more {
        lemma_halved_bounds(score, fewer - 1, more - 1);
    } else {
        lemma_halved_bounds(score, fewer, more - 1);
    }
}

/// Longer inactivity never means fewer halvings.
pub proof fn lemma_decay_periods_monotonic(earlier_days: int, later_days: int, decay_rate_bps: u16)
    requires
        earlier_days <= later_days,
    ensures
        0 <= decay_periods(earlier_days, decay_rate_bps) <= decay_periods(
            later_days,
            decay_rate_bps,
        ) <= MAX_DECAY_PERIODS,
{
    let rate = decay_rate_bps as int;
    let a = earlier_days - DECAY_GRACE_PERIOD_DAYS;
    let b = later_days - DECAY_GRACE_PERIOD_DAYS;
    if earlier_days > DECAY_GRACE_PERIOD_DAYS {
        assert(0 <= a * rate <= b * rate) by (nonlinear_arith)
            requires
                0 < a <= b,
                0 <= rate,
        ;
    } else if later_days > DECAY_GRACE_PERIOD_DAYS {
        assert(0 <= b * rate) by (nonlinear_arith)
            requires
                0 < b,
                0 <= rate,
        ;
    }
}

/// An agent's reputation.
#[derive(Clone, Copy, Debug)]
pub struct AgentReputation {
    pub agent_address: Address,
    /// The score as last written, 0 to 1000.
    pub overall_score: u16,
    pub component_scores: ComponentScores,
    pub stats: ReputationStats,
    /// Commitment to the agent's payment proofs.
    pub payment_proofs_merkle_root: [u8; 32],
    pub last_updated: i64,
    pub bump: u8,
    /// The score from which decay is counted.
    pub base_score: u16,
    /// The time from which inactivity is counted.
    pub last_activity: i64,
    pub decay_enabled: bool,
    /// Decay rate in basis points of the standard rate, 100 to 10000.
    pub decay_rate_bps: u16,
}

impl AgentReputation {
    /// Whether every score and rate is within its range.
    pub open spec fn wf(&self) -> bool {
        &&& self.overall_score <= MAX_OVERALL_SCORE
        &&& self.base_score <= MAX_OVERALL_SCORE
        &&& self.component_scores.in_range()
        &&& self.stats.avg_review_rating <= MAX_REVIEW_RATING
        &&& self.decay_enabled ==> MIN_DECAY_RATE_BPS <= self.decay_rate_bps
            <= MAX_DECAY_RATE_BPS
    }

    /// The base score as decay leaves it at `current_time`; the base score
    /// itself while decay is off.
    pub open spec fn spec_decayed_score(&self, current_time: i64) -> int {
        if !self.decay_enabled {
            self.base_score as int
        } else {
            decayed_score(
                self.base_score,
                days_inactive(self.last_activity, current_time),
                self.decay_rate_bps,
            )
        }
    }

    /// The score in effect at `current_time`: the decayed base while decay is
    /// on, the score as last written while it is off.
    pub open spec fn spec_effective_score(&self, current_time: i64) -> int {
        if self.decay_enabled {
            self.spec_decayed_score(current_time)
        } else {
            self.overall_score as int
        }
    }

    /// Computes the base score as decay leaves it at `current_time`.
    pub fn calculate_decayed_score(&self, current_time: i64) -> (score: u16)
        ensures
            score == self.spec_decayed_score(current_time),
            days_inactive(self.last_activity, current_time) <= DECAY_GRACE_PERIOD_DAYS ==> score
                == self.base_score,
            self.decay_enabled && days_inactive(self.last_activity, current_time)
                > DECAY_GRACE_PERIOD_DAYS ==> DECAY_MIN_SCORE <= score,
            score <= self.base_score || score == DECAY_MIN_SCORE,
    {
        if !self.decay_enabled {
            return self.base_score;
        }
        let elapsed: i128 = current_time as i128 - self.last_activity as i128;
        if elapsed <= 0 {
            return self.base_score;
        }
        let days: u128 = (elapsed as u128) / 86400;
        if days <= 30 {
            return self.base_score;
        }
        let effective_days: u128 = days - 30;
        let rate: u128 = self.decay_rate_bps as u128;
        assert(effective_days * rate <= 0x1_0000_0000_0000_0000 * 0x1_0000) by (nonlinear_arith)
            requires
                effective_days <= 0x1_0000_0000_0000_0000,
                rate <= 0x1_0000,
        ;
        let raw_periods: u128 = effective_days * rate / 900000;
        let periods: u64 = if raw_periods <= MAX_DECAY_PERIODS as u128 {
            raw_periods as u64
        } else {
            MAX_DECAY_PERIODS
        };
        let mut decayed: u16 = self.base_score;
        let mut done: u64 = 0;
        while done < periods
            invariant
                done <= periods,
                decayed == halved(self.base_score as int, done as int),
            decreases periods - done,
        {
            decayed = decayed / 2;
            done += 1;
        }
        proof {
            lemma_halved_bounds(self.base_score as int, 0, periods as int);
        }
        if decayed >= DECAY_MIN_SCORE {
            decayed
        } else {
            DECAY_MIN_SCORE
        }
    }

    /// Restarts the inactivity clock at `current_time`.
    pub fn record_activity(&mut self, current_time: i64)
        ensures
            *final(self) == (AgentReputation { last_activity: current_time, ..*old(self) }),
    {
        self.last_activity = current_time;
    }

    /// The score in effect at `current_time`.
    pub fn get_effective_score(&self, current_time: i64) -> (score: u16)
        ensures
            score == self.spec_effective_score(current_time),
    {
        if self.decay_enabled {
            self.calculate_decayed_score(current_time)
        } else {
            self.overall_score
        }
    }
}

/// Within the grace period the decayed score is the base score exactly, and
/// so is the score in effect while decay is on.
pub proof fn lemma_grace_period_keeps_base_score(reputation: AgentReputation, now: i64)
    requires
        days_inactive(reputation.last_activity, now) <= DECAY_GRACE_PERIOD_DAYS,
    ensures
        reputation.spec_decayed_score(now) == reputation.base_score,
        reputation.decay_enabled ==> reputation.spec_effective_score(now) == reputation.base_score,
{
}

/// Once the grace period is over, decay never takes the score in effect
/// below the floor; and a base score at or above the floor stays there at
/// every time.
pub proof fn lemma_decay_never_falls_below_floor(reputation: AgentReputation, now: i64)
    requires
        reputation.decay_enabled,
        days_inactive(reputation.last_activity, now) > DECAY_GRACE_PERIOD_DAYS
            || reputation.base_score >= DECAY_MIN_SCORE,
    ensures
        reputation.spec_effective_score(now) >= DECAY_MIN_SCORE,
{
}

/// The decayed score never rises with time, for a base score at or above the
/// floor; and it never passes the larger of the base score and the floor.
pub proof fn lemma_decay_is_monotonic(reputation: AgentReputation, earlier: i64, later: i64)
    requires
        reputation.decay_enabled,
        earlier <= later,
        reputation.base_score >= DECAY_MIN_SCORE || days_inactive(
            reputation.last_activity,
            earlier,
        ) > DECAY_GRACE_PERIOD_DAYS,
    ensures
        reputation.spec_effective_score(later) <= reputation.spec_effective_score(earlier),
        reputation.base_score >= DECAY_MIN_SCORE ==> reputation.spec_effective_score(later)
            <= reputation.base_score,
{
    let d1 = days_inactive(reputation.last_activity, earlier);
    let d2 = days_inactive(reputation.last_activity, later);
    assert(d1 <= d2);
    lemma_decay_periods_monotonic(d1, d2, reputation.decay_rate_bps);
    lemma_halved_bounds(
        reputation.base_score as int,
        decay_periods(d1, reputation.decay_rate_bps),
        decay_periods(d2, reputation.decay_rate_bps),
    );
    lemma_halved_bounds(
        reputation.base_score as int,
        0,
        decay_periods(d2, reputation.decay_rate_bps),
    );
}

/// The single authority that may write reputations directly.
#[derive(Clone, Copy, Debug)]
pub struct ReputationAuthority {
    pub authority: Address,
    pub bump: u8,
}

/// Most signers a roster can hold.
pub const MAX_MULTISIG_SIGNERS: usize = 7;

/// Most proposals that may be pending at once.
pub const MAX_PENDING_PROPOSALS: usize = 10;

/// How long after its creation a proposal can still be approved: 48 hours.
pub const PROPOSAL_EXPIRY_SECONDS: i64 = 48 * 60 * 60;

/// The roster of signers and the number of approvals that a proposal needs.
#[derive(Clone, Debug)]
pub struct MultisigAuthority {
    /// The signers in order; a signer's position is its bit in a proposal's
    /// approval bitmap.
    pub signers: Vec<Address>,
    /// Approvals needed, from 1 to the number of signers.
    pub threshold: u8,
    /// Proposals created so far; the next proposal's id.
    pub proposal_count: u64,
    /// Who may change the roster.
    pub admin: Address,
    pub is_active: bool,
    pub created_at: i64,
    pub bump: u8,
}

impl MultisigAuthority {
    /// Whether the roster is within its bounds and the threshold within the roster.
    pub open spec fn wf(&self) -> bool {
        &&& 1 <= self.signers@.len() <= MAX_MULTISIG_SIGNERS
        &&& 1 <= self.threshold <= self.signers@.len()
    }

    /// The position of `who` in the roster, if `who` is a signer.
    pub open spec fn signer_index(&self, who: Address) -> Option<int> {
        self.signers@.index_of_first(who)
    }

    /// Finds the position of `who` in the roster.
    pub fn position_of(&self, who: &Address) -> (found: Option<usize>)
        ensures
            found is Some <==> self.signers@.contains(*who),
            match found {
                Some(i) => self.signer_index(*who) == Some(i as int) && i < self.signers@.len()
                    && self.signers@[i as int] == *who,
                None => self.signer_index(*who) is None,
            },
    {
        let mut i: usize = 0;
        while i < self.signers.len()
            invariant
                i <= self.signers@.len(),
                forall|j: int| 0 <= j < i ==> self.signers@[j] != *who,
            decreases self.signers@.len() - i,
        {
            if self.signers[i].equals(who) {
                proof {
                    assert(self.signers@[i as int] == *who);
                    self.signers@.index_of_first_ensures(*who);
                    let first = self.signers@.index_of_first(*who).unwrap();
                    assert(self.signers@[first] == *who);
                    assert(first == i);
                }
                return Some(i);
            }
            i += 1;
        }
        proof {
            self.signers@.index_of_first_ensures(*who);
        }
        None
    }
}

/// What a proposal asks for.
#[derive(Clone, Copy, Debug, PartialEq, Eq, Structural)]
pub enum ProposalType {
    UpdateReputation,
    AddSigner,
    RemoveSigner,
    UpdateThreshold,
    EmergencyPause,
}

/// Where a proposal stands.
#[derive(Clone, Copy, Debug, PartialEq, Eq, Structural)]
pub enum ProposalStatus {
    Pending,
    Approved,
    Executed,
    Rejected,
    Expired,
}

impl Default for ProposalStatus {
    fn default() -> (status: ProposalStatus)
        ensures
            status == ProposalStatus::Pending,
    {
        ProposalStatus::Pending
    }
}

/// Whether the bit of the signer at `index` is set in `bitmap`.
pub open spec fn bit_is_set(bitmap: u8, index: u8) -> bool {
    bitmap & (1u8 << index) != 0
}

/// The positions of the signers whose bit is set in `bitmap`: the signers
/// that have approved.
pub open spec fn approvers(bitmap: u8) -> Set<int> {
    Set::new(|i: int| 0 <= i < 8 && bit_is_set(bitmap, i as u8))
}

/// Setting the bit at `index` sets that bit and leaves every other bit alone.
pub proof fn lemma_set_bit(bitmap: u8, index: u8, other: u8)
    by (bit_vector)
    requires
        index < 8,
        other < 8,
    ensures
        bit_is_set(bitmap | (1u8 << index), other) == (other == index || bit_is_set(
            bitmap,
            other,
        )),
{
}

/// No bit is set in the empty bitmap.
pub proof fn lemma_no_bit_in_zero(index: u8)
    by (bit_vector)
    requires
        index < 8,
    ensures
        !bit_is_set(0u8, index),
{
}

/// Nobody has approved in the empty bitmap.
pub proof fn lemma_no_approvers_in_zero()
    ensures
        approvers(0u8) == Set::<int>::empty(),
        approvers(0u8).len() == 0,
{
    assert forall|i: int| !approvers(0u8).contains(i) by {
        if 0 <= i < 8 {
            lemma_no_bit_in_zero(i as u8);
        }
    }
    assert(approvers(0u8) =~= Set::<int>::empty());
}

/// The approvers are among the eight positions of the bitmap.
pub proof fn lemma_approvers_bounded(bitmap: u8)
    ensures
        approvers(bitmap).finite(),
        approvers(bitmap).len() <= 8,
{
    vstd::set_lib::lemma_int_range(0, 8);
    assert(approvers(bitmap).subset_of(vstd::set_lib::set_int_range(0, 8)));
    vstd::set_lib::lemma_len_subset(approvers(bitmap), vstd::set_lib::set_int_range(0, 8));
}

/// Setting the bit at `index` adds that position to the approvers, and raises
/// their number by one if it was not among them.
pub proof fn lemma_set_bit_adds_approver(bitmap: u8, index: u8)
    requires
        index < 8,
    ensures
        approvers(bitmap | (1u8 << index)) == approvers(bitmap).insert(index as int),
        approvers(bitmap | (1u8 << index)).len() == approvers(bitmap).len() + if bit_is_set(
            bitmap,
            index,
        ) {
            0int
        } else {
            1int
        },
{
    let after = approvers(bitmap | (1u8 << index));
    let expected = approvers(bitmap).insert(index as int);
    assert forall|i: int| after.contains(i) == expected.contains(i) by {
        if 0 <= i < 8 {
            lemma_set_bit(bitmap, index, i as u8);
        }
    }
    assert(after =~= expected);
    lemma_approvers_bounded(bitmap);
    assert(approvers(bitmap).contains(index as int) == bit_is_set(bitmap, index));
}

/// A request to the roster, with the approvals it has gathered.
#[derive(Clone, Copy, Debug)]
pub struct MultisigProposal {
    pub proposal_id: u64,
    pub proposal_type: ProposalType,
    pub proposer: Address,
    /// The agent whose reputation the proposal rewrites.
    pub target_agent: Address,
    pub proposed_score: u16,
    pub proposed_components: ComponentScores,
    pub proposed_stats: ReputationStats,
    pub proposed_merkle_root: [u8; 32],
    /// The signer to add or remove, for roster proposals.
    pub target_signer: Address,
    /// The threshold asked for, for threshold proposals.
    pub new_threshold: u8,
    /// One bit per signer position: set once that signer has approved.
    pub approval_bitmap: u8,
    /// Approvals gathered; saturates.
    pub approval_count: u8,
    pub status: ProposalStatus,
    pub created_at: i64,
    /// When the proposal was executed; 0 before.
    pub executed_at: i64,
    pub bump: u8,
}

impl MultisigProposal {
    /// The positions of the signers that have approved.
    pub open spec fn approved_by(&self) -> Set<int> {
        approvers(self.approval_bitmap)
    }

    /// Whether the approval count is the number of signers that approved.
    pub open spec fn wf(&self) -> bool {
        self.approval_count == self.approved_by().len()
    }

    /// Whether the proposed scores are within their ranges.
    pub open spec fn payload_in_range(&self) -> bool {
        &&& self.proposed_score <= MAX_OVERALL_SCORE
        &&& self.proposed_components.in_range()
        &&& self.proposed_stats.avg_review_rating <= MAX_REVIEW_RATING
    }

    /// Whether the proposal's life is over at `current_time`.
    pub open spec fn spec_is_expired(&self, current_time: i64) -> bool {
        current_time > self.created_at + PROPOSAL_EXPIRY_SECONDS
    }

    /// Whether the signer at `signer_index` has approved.
    pub fn has_approved(&self, signer_index: u8) -> (approved: bool)
        requires
            signer_index < 8,
        ensures
            approved == bit_is_set(self.approval_bitmap, signer_index),
            approved == self.approved_by().contains(signer_index as int),
    {
        (self.approval_bitmap & (1u8 << signer_index)) != 0
    }

    /// Records the approval of the signer at `signer_index`.
    pub fn record_approval(&mut self, signer_index: u8)
        requires
            signer_index < 8,
        ensures
            *final(self) == (MultisigProposal {
                approval_bitmap: old(self).approval_bitmap | (1u8 << signer_index),
                approval_count: if old(self).approval_count == u8::MAX {
                    u8::MAX
                } else {
                    (old(self).approval_count + 1) as u8
                },
                ..*old(self)
            }),
            final(self).approved_by() == old(self).approved_by().insert(signer_index as int),
            old(self).wf() && !old(self).approved_by().contains(signer_index as int)
                ==> final(self).wf(),
    {
        proof {
            lemma_set_bit_adds_approver(self.approval_bitmap, signer_index);
            lemma_approvers_bounded(self.approval_bitmap);
        }
        self.approval_bitmap = self.approval_bitmap | (1u8 << signer_index);
        self.approval_count = self.approval_count.saturating_add(1);
    }

    /// Whether the proposal's life is over at `current_time`.
    pub fn is_expired(&self, current_time: i64) -> (expired: bool)
        ensures
            expired == self.spec_is_expired(current_time),
    {
        let deadline: i128 = self.created_at as i128 + PROPOSAL_EXPIRY_SECONDS as i128;
        current_time as i128 > deadline
    }

    /// Whether the approvals gathered reach `threshold`.
    pub fn has_quorum(&self, threshold: u8) -> (reached: bool)
        ensures
            reached == (self.approval_count >= threshold),
    {
        self.approval_count >= threshold
    }
}

} // verus!
