//! Voting sessions: votes are cast with staked reputation, the outcome is computed once
//! the vote has ended, and each voter then claims what the outcome entitles them to.
use crate::account::AccountHash;
use crate::custom_types::{
    GovernanceProposalSerialized, ProposalSerialized, VotersSerialized, VotingDataSerialized,
    VotingSerialized,
};
use crate::error::VotingEngineError;
use crate::proposal::{
    GovernanceProposal, GovernanceProposalView, Proposal, ProposalStatus, ProposalView,
};
use crate::uint::{u256_max, U256};
use std::collections::BTreeMap;
use vstd::prelude::*;
use vstd::std_specs::iter::IteratorSpec;

verus! {

/// What one voter has staked, on which side, and whether the voter has claimed since.
#[derive(Clone, Copy, Debug, PartialEq, Eq, Structural)]
pub struct VotingData {
    pub reputation_staked: U256,
    /// `true` for the proposal, `false` against it.
    pub vote: bool,
    pub claimed: bool,
}

/// The state of a vote: `InVote` until the outcome is computed, then one of the others.
#[derive(Clone, Copy, Debug, PartialEq, Eq, Structural)]
pub enum VoteResult {
    InVote,
    FailCriteriaUnmet,
    Approved,
    Rejected,
    MemberQuorumUnmet,
    ReputationQuorumUnmet,
    PassThresholdUnmet,
    FailThresholdUnmet,
}

impl VoteResult {
    /// The code under which the result is stored.
    pub open spec fn spec_code(self) -> u8 {
        match self {
            VoteResult::InVote => 0,
            VoteResult::FailCriteriaUnmet => 1,
            VoteResult::Approved => 2,
            VoteResult::Rejected => 3,
            VoteResult::MemberQuorumUnmet => 4,
            VoteResult::ReputationQuorumUnmet => 5,
            VoteResult::PassThresholdUnmet => 6,
            VoteResult::FailThresholdUnmet => 7,
        }
    }

    /// The result stored under a code; a code that names none reads as `InVote`.
    pub open spec fn spec_from_code(code: u8) -> VoteResult {
        if code == 1 {
            VoteResult::FailCriteriaUnmet
        } else if code == 2 {
            VoteResult::Approved
        } else if code == 3 {
            VoteResult::Rejected
        } else if code == 4 {
            VoteResult::MemberQuorumUnmet
        } else if code == 5 {
            VoteResult::ReputationQuorumUnmet
        } else if code == 6 {
            VoteResult::PassThresholdUnmet
        } else if code == 7 {
            VoteResult::FailThresholdUnmet
        } else {
            VoteResult::InVote
        }
    }

    /// Whether the vote was decided: approved or rejected.
    pub open spec fn spec_is_decided(self) -> bool {
        self == VoteResult::Approved || self == VoteResult::Rejected
    }

    /// Whether the vote ended without a decision, so that the stakes go back.
    pub open spec fn spec_is_failed(self) -> bool {
        self == VoteResult::FailCriteriaUnmet || self == VoteResult::MemberQuorumUnmet || self
            == VoteResult::ReputationQuorumUnmet || self == VoteResult::PassThresholdUnmet || self
            == VoteResult::FailThresholdUnmet
    }

    /// The code under which the result is stored.
    pub fn code(&self) -> (r: u8)
        ensures
            r == self.spec_code(),
    {
        match self {
            VoteResult::InVote => 0,
            VoteResult::FailCriteriaUnmet => 1,
            VoteResult::Approved => 2,
            VoteResult::Rejected => 3,
            VoteResult::MemberQuorumUnmet => 4,
            VoteResult::ReputationQuorumUnmet => 5,
            VoteResult::PassThresholdUnmet => 6,
            VoteResult::FailThresholdUnmet => 7,
        }
    }

    /// The result stored under a code; a code that names none reads as `InVote`.
    pub fn from_code(code: u8) -> (r: VoteResult)
        ensures
            r == VoteResult::spec_from_code(code),
    {
        match code {
            1 => VoteResult::FailCriteriaUnmet,
            2 => VoteResult::Approved,
            3 => VoteResult::Rejected,
            4 => VoteResult::MemberQuorumUnmet,
            5 => VoteResult::ReputationQuorumUnmet,
            6 => VoteResult::PassThresholdUnmet,
            7 => VoteResult::FailThresholdUnmet,
            _ => VoteResult::InVote,
        }
    }

    /// Whether the vote was decided: approved or rejected.
    pub fn is_decided(&self) -> (r: bool)
        ensures
            r == self.spec_is_decided(),
    {
        match self {
            VoteResult::Approved => true,
            VoteResult::Rejected => true,
            _ => false,
        }
    }

    /// Whether the vote ended without a decision, so that the stakes go back.
    pub fn is_failed(&self) -> (r: bool)
        ensures
            r == self.spec_is_failed(),
    {
        match self {
            VoteResult::FailCriteriaUnmet => true,
            VoteResult::MemberQuorumUnmet => true,
            VoteResult::ReputationQuorumUnmet => true,
            VoteResult::PassThresholdUnmet => true,
            VoteResult::FailThresholdUnmet => true,
            _ => false,
        }
    }
}

/// What a session votes on: a grant proposal or a governance proposal.
#[derive(Debug, PartialEq, Eq)]
pub enum Payload {
    Grant(Proposal),
    Governance(GovernanceProposal),
}

/// The subject of a session as a mathematical value.
#[verifier::ext_equal]
pub enum PayloadView {
    Grant(ProposalView),
    Governance(GovernanceProposalView),
}

impl View for Payload {
    type V = PayloadView;

    open spec fn view(&self) -> PayloadView {
        match self {
            Payload::Grant(p) => PayloadView::Grant(p@),
            Payload::Governance(g) => PayloadView::Governance(g@),
        }
    }
}

impl PayloadView {
    /// The time at which the vote ends.
    pub open spec fn timeout(self) -> u64 {
        match self {
            PayloadView::Grant(p) => p.vote_configuration.timeout,
            PayloadView::Governance(g) => g.vote_configuration.timeout,
        }
    }

    /// Where the proposal stands.
    pub open spec fn status(self) -> ProposalStatus {
        match self {
            PayloadView::Grant(p) => p.proposal_status,
            PayloadView::Governance(g) => g.proposal_status,
        }
    }
}

/// One vote on one proposal.
#[derive(Debug, PartialEq, Eq)]
pub struct Voting {
    pub start_timestamp: u64,
    /// How many members have voted.
    pub total_members: u64,
    pub total_staked_reputation: U256,
    pub payload: Payload,
    pub for_votes: U256,
    pub against_votes: U256,
    /// The reputation that an approved grant brings, to be shared on top of the stakes.
    pub input_reputation: U256,
    /// The voters for the proposal, by the key of the voter's account.
    pub for_voters: BTreeMap<(u128, u128), VotingData>,
    /// The voters against the proposal, by the key of the voter's account.
    pub against_voters: BTreeMap<(u128, u128), VotingData>,
    pub result: VoteResult,
}

/// A voting session as a mathematical value, its totals as natural numbers.
#[verifier::ext_equal]
pub struct VotingView {
    pub start_timestamp: u64,
    pub total_members: u64,
    pub total_staked_reputation: nat,
    pub payload: PayloadView,
    pub for_votes: nat,
    pub against_votes: nat,
    pub input_reputation: nat,
    pub for_voters: Map<(u128, u128), VotingData>,
    pub against_voters: Map<(u128, u128), VotingData>,
    pub result: VoteResult,
}

impl View for Voting {
    type V = VotingView;

    open spec fn view(&self) -> VotingView {
        VotingView {
            start_timestamp: self.start_timestamp,
            total_members: self.total_members,
            total_staked_reputation: self.total_staked_reputation@,
            payload: self.payload@,
            for_votes: self.for_votes@,
            against_votes: self.against_votes@,
            input_reputation: self.input_reputation@,
            for_voters: self.for_voters@,
            against_voters: self.against_voters@,
            result: self.result,
        }
    }
}

/// The whole-number quotient of what is staked by the voter's balance; zero for a voter
/// without balance, who can stake nothing.
pub open spec fn staking_ratio(stake: nat, balance: nat) -> nat {
    if balance == 0 {
        0
    } else {
        stake / balance
    }
}

impl VotingView {
    /// A session on which no vote has been cast.
    pub open spec fn initial(start_timestamp: u64, payload: PayloadView) -> VotingView {
        VotingView {
            start_timestamp,
            total_members: 0,
            total_staked_reputation: 0,
            payload,
            for_votes: 0,
            against_votes: 0,
            input_reputation: 0,
            for_voters: Map::empty(),
            against_voters: Map::empty(),
            result: VoteResult::InVote,
        }
    }

    /// Whether the account has voted, on either side.
    pub open spec fn has_voted(self, voter: AccountHash) -> bool {
        self.for_voters.contains_key(voter.spec_key()) || self.against_voters.contains_key(
            voter.spec_key(),
        )
    }

    /// What holds of every session that was opened empty and changed by votes only: the
    /// two sides add up to the total stake, nobody has voted on both sides, every voter is
    /// recorded on the side of their vote with a stake that is part of that side's total,
    /// and a grant keeps at most its whole bonus for the policing voters.
    pub open spec fn wf(self) -> bool {
        &&& self.for_votes + self.against_votes == self.total_staked_reputation
        &&& forall|k: (u128, u128)|
            !(#[trigger] self.for_voters.contains_key(k) && self.against_voters.contains_key(k))
        &&& forall|k: (u128, u128)| #[trigger]
            self.for_voters.contains_key(k) ==> self.for_voters[k].vote
                && self.for_voters[k].reputation_staked@ <= self.for_votes
        &&& forall|k: (u128, u128)| #[trigger]
            self.against_voters.contains_key(k) ==> !self.against_voters[k].vote
                && self.against_voters[k].reputation_staked@ <= self.against_votes
        &&& self.payload matches PayloadView::Grant(p) ==> p.ratios.policing_ratio <= 100
    }

    /// Whether one more vote with this stake can be counted: the total stake stays
    /// within 256 bits and the count of members within 64.
    pub open spec fn vote_fits(self, reputation_to_stake: nat) -> bool {
        &&& self.total_staked_reputation + reputation_to_stake <= u256_max()
        &&& self.total_members < u64::MAX
    }

    /// Why a vote is refused, if it is. The checks are made in this order: the voter has
    /// voted already; the vote has ended; the proposal is not in its full vote; the stake
    /// exceeds the voter's balance less what the voter has committed elsewhere; on a
    /// grant, the stake's ratio to the balance exceeds the staking limit.
    pub open spec fn cast_vote_refusal(
        self,
        caller: AccountHash,
        current_time: u64,
        reputation_balance: nat,
        reputation_to_stake: nat,
        committed_reputation: nat,
    ) -> Option<VotingEngineError> {
        if self.has_voted(caller) {
            Some(VotingEngineError::AlreadyVoted)
        } else if current_time > self.payload.timeout() {
            Some(VotingEngineError::VotingEnded)
        } else if self.payload.status() != ProposalStatus::InFullVote {
            Some(VotingEngineError::VotingNotOngoing)
        } else if reputation_to_stake > reputation_balance - committed_reputation {
            Some(VotingEngineError::InvalidReputationToStake)
        } else if self.payload matches PayloadView::Grant(p) && staking_ratio(
            reputation_to_stake,
            reputation_balance,
        ) > p.vote_configuration.voter_staking_limits@ {
            Some(VotingEngineError::StakingLimitReached)
        } else {
            None
        }
    }

    /// The session after an accepted vote: the voter is recorded on the side of the vote
    /// with nothing claimed, that side and the total stake grow by the stake, and one more
    /// member has voted.
    pub open spec fn after_cast_vote(
        self,
        caller: AccountHash,
        reputation_to_stake: U256,
        vote_direction: bool,
    ) -> VotingView {
        let record = VotingData {
            reputation_staked: reputation_to_stake,
            vote: vote_direction,
            claimed: false,
        };
        VotingView {
            total_members: (self.total_members + 1) as u64,
            total_staked_reputation: self.total_staked_reputation + reputation_to_stake@,
            for_votes: if vote_direction {
                self.for_votes + reputation_to_stake@
            } else {
                self.for_votes
            },
            against_votes: if vote_direction {
                self.against_votes
            } else {
                self.against_votes + reputation_to_stake@
            },
            for_voters: if vote_direction {
                self.for_voters.insert(caller.spec_key(), record)
            } else {
                self.for_voters
            },
            against_voters: if vote_direction {
                self.against_voters
            } else {
                self.against_voters.insert(caller.spec_key(), record)
            },
            ..self
        }
    }
}

impl Payload {
    /// The time at which the vote ends.
    pub fn timeout(&self) -> (r: u64)
        ensures
            r == self@.timeout(),
    {
        match self {
            Payload::Grant(p) => p.vote_configuration.timeout,
            Payload::Governance(g) => g.vote_configuration.timeout,
        }
    }

    /// Where the proposal stands.
    pub fn status(&self) -> (r: ProposalStatus)
        ensures
            r == self@.status(),
    {
        match self {
            Payload::Grant(p) => p.proposal_status,
            Payload::Governance(g) => g.proposal_status,
        }
    }
}

impl Voting {
    /// Opens a session on a grant proposal, given in its flat form.
    pub fn new(start_timestamp: u64, serialized_proposal: ProposalSerialized) -> (r: Result<
        Voting,
        VotingEngineError,
    >)
        ensures
            r matches Ok(v) && v@ == VotingView::initial(
                start_timestamp,
                PayloadView::Grant(Proposal::spec_deserialize(serialized_proposal)),
            ),
    {
        let v = Voting {
            start_timestamp,
            against_voters: BTreeMap::new(),
            for_voters: BTreeMap::new(),
            against_votes: U256::zero(),
            for_votes: U256::zero(),
            total_members: 0,
            total_staked_reputation: U256::zero(),
            result: VoteResult::InVote,
            payload: Payload::Grant(Proposal::deserialize(serialized_proposal)),
            input_reputation: U256::zero(),
        };
        assert(v@ =~= VotingView::initial(
            start_timestamp,
            PayloadView::Grant(Proposal::spec_deserialize(serialized_proposal)),
        ));
        Ok(v)
    }

    /// Opens a session on a governance proposal, given in its flat form.
    pub fn new_governance(
        start_timestamp: u64,
        serialized_governance_proposal: GovernanceProposalSerialized,
    ) -> (r: Result<Voting, VotingEngineError>)
        ensures
            r matches Ok(v) && v@ == VotingView::initial(
                start_timestamp,
                PayloadView::Governance(
                    GovernanceProposal::spec_deserialize(serialized_governance_proposal),
                ),
            ),
    {
        let v = Voting {
            start_timestamp,
            against_voters: BTreeMap::new(),
            for_voters: BTreeMap::new(),
            against_votes: U256::zero(),
            for_votes: U256::zero(),
            total_members: 0,
            total_staked_reputation: U256::zero(),
            result: VoteResult::InVote,
            payload: Payload::Governance(
                GovernanceProposal::deserialize(serialized_governance_proposal),
            ),
            input_reputation: U256::zero(),
        };
        assert(v@ =~= VotingView::initial(
            start_timestamp,
            PayloadView::Governance(
                GovernanceProposal::spec_deserialize(serialized_governance_proposal),
            ),
        ));
        Ok(v)
    }

    /// The time at which the session was opened.
    pub fn start_at(&self) -> (r: u64)
        ensures
            r == self@.start_timestamp,
    {
        self.start_timestamp
    }

    /// The time at which the vote ends.
    pub fn end_at(&self) -> (r: u64)
        ensures
            r == self@.payload.timeout(),
    {
        self.payload.timeout()
    }

    /// Records the vote of `caller`, who has `reputation_balance` in all, of which
    /// `committed_reputation` is staked elsewhere, and stakes `reputation_to_stake` on
    /// this vote.
    ///
    /// A refused vote changes nothing. Where the vote is accepted, the total stake must
    /// stay within 256 bits and the count of members within 64.
    pub fn cast_vote(
        &mut self,
        caller: AccountHash,
        current_time: u64,
        reputation_balance: U256,
        reputation_to_stake: U256,
        committed_reputation: U256,
        vote_direction: bool,
    ) -> (r: Result<(), VotingEngineError>)
        requires
            old(self)@.wf(),
            old(self)@.cast_vote_refusal(
                caller,
                current_time,
                reputation_balance@,
                reputation_to_stake@,
                committed_reputation@,
            ) is None ==> old(self)@.vote_fits(reputation_to_stake@),
        ensures
            match r {
                Ok(()) => old(self)@.cast_vote_refusal(
                    caller,
                    current_time,
                    reputation_balance@,
                    reputation_to_stake@,
                    committed_reputation@,
                ) is None && final(self)@ == old(self)@.after_cast_vote(
                    caller,
                    reputation_to_stake,
                    vote_direction,
                ),
                Err(e) => old(self)@.cast_vote_refusal(
                    caller,
                    current_time,
                    reputation_balance@,
                    reputation_to_stake@,
                    committed_reputation@,
                ) == Some(e) && final(self)@ == old(self)@,
            },
            final(self)@.wf(),
    {
        match self.cast_vote_refusal(
            &caller,
            current_time,
            &reputation_balance,
            &reputation_to_stake,
            &committed_reputation,
        ) {
            Some(e) => {
                return Err(e);
            },
            None => {},
        }
        let key = caller.key();
        let voting_data = VotingData {
            claimed: false,
            reputation_staked: reputation_to_stake,
            vote: vote_direction,
        };
        if vote_direction {
            self.for_voters.insert(key, voting_data);
            self.for_votes = self.for_votes.add(&reputation_to_stake);
        } else {
            self.against_voters.insert(key, voting_data);
            self.against_votes = self.against_votes.add(&reputation_to_stake);
        }
        self.total_members = self.total_members + 1;
        self.total_staked_reputation = self.total_staked_reputation.add(&reputation_to_stake);
        assert(self@ =~= old(self)@.after_cast_vote(caller, reputation_to_stake, vote_direction));
        Ok(())
    }
}

/// 10^12: the scale of the reputation allocation ratio and of the bonus pool.
pub open spec fn allocation_scale() -> nat {
    1_000_000_000_000
}

/// 10^16: the factor by which the cost of a grant is scaled up into its bonus pool.
pub open spec fn cost_scale() -> nat {
    10_000_000_000_000_000
}

/// The share of the votes that the larger side holds, in percent, rounded down; zero
/// where no vote was cast.
pub open spec fn percentage(majority_votes: nat, total_votes: nat) -> nat {
    if total_votes == 0 {
        0
    } else {
        majority_votes * 10000 / (100 * total_votes)
    }
}

/// What the votes decide under a threshold in percent: the side with more votes wins, a
/// tie counts for the side against, and a side wins only with more than the threshold.
pub open spec fn tally(for_votes: nat, against_votes: nat, threshold: nat) -> VoteResult {
    let total_votes = for_votes + against_votes;
    if for_votes > against_votes {
        if percentage(for_votes, total_votes) <= threshold {
            VoteResult::PassThresholdUnmet
        } else {
            VoteResult::Approved
        }
    } else {
        if percentage(against_votes, total_votes) <= threshold {
            VoteResult::FailThresholdUnmet
        } else {
            VoteResult::Rejected
        }
    }
}

/// The reputation that an approved grant of this cost brings under this allocation
/// ratio.
pub open spec fn input_reputation_of(cost: nat, reputation_allocation_ratio: nat) -> nat {
    cost * cost_scale() / (allocation_scale() / reputation_allocation_ratio)
}

/// Whether `input_reputation_of` can be computed: the ratio is between 1 and 10^12, so
/// that no division is by zero, and the scaled cost fits in 256 bits.
pub open spec fn input_reputation_defined(cost: nat, reputation_allocation_ratio: nat) -> bool {
    &&& 1 <= reputation_allocation_ratio <= allocation_scale()
    &&& cost * cost_scale() <= u256_max()
}

/// The share of a stake in the total of the winning side, in percent, rounded down.
pub open spec fn voter_shares(stake: nat, majority_total: nat) -> nat {
    stake * 1000 / (10 * majority_total)
}

/// What a voter with these shares gains of the total of the losing side.
pub open spec fn losing_share(shares: nat, minority_total: nat) -> nat {
    shares * minority_total / 100
}

/// What the proposer of an approved grant gains of its input reputation: the part that
/// the policing ratio leaves, of the input reputation taken in units of 10^12.
pub open spec fn proposer_bonus(input_reputation: nat, policing_ratio: nat) -> nat
    recommends
        policing_ratio <= 100,
{
    (input_reputation / allocation_scale()) * ((100 - policing_ratio) as nat) / 100
}

/// What another voter for an approved grant gains of its input reputation: of the part
/// that the policing ratio reserves, the voter's share.
pub open spec fn policing_bonus(input_reputation: nat, policing_ratio: nat, shares: nat) -> nat {
    ((input_reputation / allocation_scale()) * policing_ratio / 100) * shares / 100
}

/// A side that wins has votes, and more than the other side or (against) as many.
pub proof fn lemma_tally_decided(for_votes: nat, against_votes: nat, threshold: nat)
    ensures
        tally(for_votes, against_votes, threshold) == VoteResult::Approved ==> for_votes
            > against_votes,
        tally(for_votes, against_votes, threshold) == VoteResult::Rejected ==> against_votes
            >= for_votes && against_votes > 0,
{
    if for_votes <= against_votes && against_votes == 0 {
        assert(percentage(against_votes, for_votes + against_votes) == 0);
    }
}

proof fn lemma_quotient_bounded(a: nat, b: nat, c: nat)
    requires
        b > 0,
        a <= c * b,
    ensures
        a / b <= c,
{
    assert(a / b <= c) by (nonlinear_arith)
        requires
            b > 0,
            a <= c * b,
    ;
}

proof fn lemma_quotient_times_divisor(a: nat, b: nat)
    requires
        b > 0,
    ensures
        (a / b) * b <= a,
{
    assert((a / b) * b <= a) by (nonlinear_arith)
        requires
            b > 0,
    ;
}

proof fn lemma_product_bounded(a: nat, b: nat, c: nat, d: nat)
    requires
        a <= c,
        b <= d,
    ensures
        a * b <= c * d,
{
    assert(a * b <= c * d) by (nonlinear_arith)
        requires
            a <= c,
            b <= d,
    ;
}

impl VotingView {
    /// Whether the percentages of this session can be computed in 256 bits.
    pub open spec fn tally_fits(self) -> bool {
        (self.for_votes + self.against_votes) * 10000 <= u256_max()
    }

    /// Why the outcome is not computed, if it is not: the vote has not ended yet, or the
    /// proposal is not in its full vote.
    pub open spec fn outcome_refusal(self, current_time: u64) -> Option<VotingEngineError> {
        if current_time < self.payload.timeout() {
            Some(VotingEngineError::VotingOngoing)
        } else if self.payload.status() != ProposalStatus::InFullVote {
            Some(VotingEngineError::VotingNotOngoing)
        } else {
            None
        }
    }

    /// The outcome of a vote on a grant. A quorum that is missed ends the vote, whatever
    /// the votes say: the reputation quorum is looked at first, then the member quorum,
    /// and only a vote that meets both is decided by the threshold.
    pub open spec fn grant_outcome(self) -> VoteResult
        recommends
            self.payload is Grant,
    {
        let p = self.payload->Grant_0;
        if self.total_staked_reputation < p.vote_configuration.reputation_quorum@ {
            VoteResult::ReputationQuorumUnmet
        } else if self.total_members < p.vote_configuration.member_quorum {
            VoteResult::MemberQuorumUnmet
        } else {
            tally(self.for_votes, self.against_votes, p.vote_configuration.threshold as nat)
        }
    }

    /// The session once the outcome of a vote on a grant is recorded: an approved grant
    /// has its input reputation set, nothing else changes.
    pub open spec fn after_grant_outcome(self, reputation_allocation_ratio: u64) -> VotingView
        recommends
            self.payload is Grant,
    {
        let outcome = self.grant_outcome();
        VotingView {
            result: outcome,
            input_reputation: if outcome == VoteResult::Approved {
                input_reputation_of(
                    self.payload->Grant_0.cost@,
                    reputation_allocation_ratio as nat,
                )
            } else {
                self.input_reputation
            },
            ..self
        }
    }

    /// The outcome of a vote on a governance proposal: a missed quorum ends the vote,
    /// otherwise the threshold of the full vote decides.
    pub open spec fn governance_outcome(self) -> VoteResult
        recommends
            self.payload is Governance,
    {
        let g = self.payload->Governance_0;
        if self.total_staked_reputation < g.vote_configuration.full_vote_quorum@ {
            VoteResult::ReputationQuorumUnmet
        } else {
            tally(self.for_votes, self.against_votes, g.vote_configuration.full_vote_threshold as nat)
        }
    }

    /// Whether the recorded result agrees with the recorded votes: an approved vote has
    /// more votes for than against, a rejected one has votes against and no more for.
    pub open spec fn result_agrees(self) -> bool {
        &&& self.result == VoteResult::Approved ==> self.for_votes > self.against_votes
        &&& self.result == VoteResult::Rejected ==> self.against_votes >= self.for_votes
            && self.against_votes > 0
    }

    /// The record of a voter, looked for among the voters against first.
    pub open spec fn record_of(self, voter: AccountHash) -> Option<VotingData> {
        if self.against_voters.contains_key(voter.spec_key()) {
            Some(self.against_voters[voter.spec_key()])
        } else if self.for_voters.contains_key(voter.spec_key()) {
            Some(self.for_voters[voter.spec_key()])
        } else {
            None
        }
    }

    /// The total of the side that won: the votes against where the vote was rejected, the
    /// votes for otherwise.
    pub open spec fn majority_total(self) -> nat {
        if self.result == VoteResult::Rejected {
            self.against_votes
        } else {
            self.for_votes
        }
    }

    /// The total of the side that lost.
    pub open spec fn minority_total(self) -> nat {
        if self.result == VoteResult::Rejected {
            self.for_votes
        } else {
            self.against_votes
        }
    }

    /// What a voter gains of the input reputation: nothing unless the session is on a
    /// grant and approved; then the proposer's part for the proposer, the policing part
    /// by shares for every other voter for the grant, nothing for a voter against it.
    pub open spec fn bonus(self, caller: AccountHash, record: VotingData) -> nat {
        match self.payload {
            PayloadView::Grant(p) => {
                if self.result != VoteResult::Approved {
                    0
                } else if caller == p.proposer {
                    proposer_bonus(self.input_reputation, p.ratios.policing_ratio as nat)
                } else if record.vote {
                    policing_bonus(
                        self.input_reputation,
                        p.ratios.policing_ratio as nat,
                        voter_shares(record.reputation_staked@, self.majority_total()),
                    )
                } else {
                    0
                }
            },
            PayloadView::Governance(_) => 0,
        }
    }

    /// What a decided vote entitles a voter to: the stake, the voter's share of the
    /// losing side's total, and the voter's bonus.
    pub open spec fn entitlement(self, caller: AccountHash, record: VotingData) -> nat {
        record.reputation_staked@ + losing_share(
            voter_shares(record.reputation_staked@, self.majority_total()),
            self.minority_total(),
        ) + self.bonus(caller, record)
    }

    /// Why a claim is refused, if it is: the vote is not decided; the caller has not
    /// voted; the caller has claimed already.
    pub open spec fn claim_refusal(self, caller: AccountHash) -> Option<VotingEngineError> {
        if !self.result.spec_is_decided() {
            Some(VotingEngineError::VoteFailed)
        } else {
            match self.record_of(caller) {
                None => Some(VotingEngineError::NoReputationToClaim),
                Some(record) => if record.claimed {
                    Some(VotingEngineError::ReputationAlreadyClaimed)
                } else {
                    None
                },
            }
        }
    }

    /// Why a stake is not handed back, if it is not: the vote did not fail; the caller has
    /// not voted; the caller has claimed already.
    pub open spec fn stake_refusal(self, caller: AccountHash) -> Option<VotingEngineError> {
        if !self.result.spec_is_failed() {
            Some(VotingEngineError::VoteDidNotFail)
        } else {
            match self.record_of(caller) {
                None => Some(VotingEngineError::NoReputationToClaim),
                Some(record) => if record.claimed {
                    Some(VotingEngineError::ReputationAlreadyClaimed)
                } else {
                    None
                },
            }
        }
    }

    /// The session once a voter has claimed: the voter's record says so, nothing else
    /// changes.
    pub open spec fn after_claim(self, caller: AccountHash) -> VotingView {
        let k = caller.spec_key();
        if self.against_voters.contains_key(k) {
            VotingView {
                against_voters: self.against_voters.insert(
                    k,
                    VotingData { claimed: true, ..self.against_voters[k] },
                ),
                ..self
            }
        } else {
            VotingView {
                for_voters: self.for_voters.insert(
                    k,
                    VotingData { claimed: true, ..self.for_voters[k] },
                ),
                ..self
            }
        }
    }
}

/// The share of the votes that the larger side holds, in percent.
fn percentage_of(majority_votes: &U256, total_votes: &U256) -> (r: U256)
    requires
        majority_votes@ <= total_votes@,
        total_votes@ * 10000 <= u256_max(),
    ensures
        r@ == percentage(majority_votes@, total_votes@),
{
    if total_votes.is_zero() {
        U256::zero()
    } else {
        let scaled = majority_votes.mul(&U256::from_u64(10000));
        let base = U256::from_u64(100).mul(total_votes);
        scaled.div(&base)
    }
}

/// What the votes decide under a threshold in percent.
fn tally_of(for_votes: &U256, against_votes: &U256, threshold: &U256) -> (r: VoteResult)
    requires
        (for_votes@ + against_votes@) * 10000 <= u256_max(),
    ensures
        r == tally(for_votes@, against_votes@, threshold@),
{
    let total_votes = for_votes.add(against_votes);
    if for_votes.gt(against_votes) {
        if percentage_of(for_votes, &total_votes).le(threshold) {
            VoteResult::PassThresholdUnmet
        } else {
            VoteResult::Approved
        }
    } else {
        if percentage_of(against_votes, &total_votes).le(threshold) {
            VoteResult::FailThresholdUnmet
        } else {
            VoteResult::Rejected
        }
    }
}

/// The share of a stake in the total of the winning side, in percent.
fn voter_shares_of(stake: &U256, majority_total: &U256) -> (r: U256)
    requires
        stake@ <= majority_total@,
        0 < majority_total@,
        majority_total@ * 1000 <= u256_max(),
    ensures
        r@ == voter_shares(stake@, majority_total@),
        r@ <= 100,
{
    let scaled = stake.mul(&U256::from_u64(1000));
    let base = U256::from_u64(10).mul(majority_total);
    proof {
        lemma_quotient_bounded(scaled@, base@, 100);
    }
    scaled.div(&base)
}

impl Voting {
    /// Why the outcome is not computed at `current_time`, if it is not.
    pub fn outcome_refusal(&self, current_time: u64) -> (r: Option<VotingEngineError>)
        ensures
            r == self@.outcome_refusal(current_time),
    {
        if self.payload.timeout() > current_time {
            Some(VotingEngineError::VotingOngoing)
        } else if self.payload.status() != ProposalStatus::InFullVote {
            Some(VotingEngineError::VotingNotOngoing)
        } else {
            None
        }
    }

    /// The outcome of the vote on a grant as the session stands: a function of the
    /// votes and the rules of the vote, and of nothing else.
    pub fn grant_outcome(&self) -> (r: VoteResult)
        requires
            self@.payload is Grant,
            self@.tally_fits(),
        ensures
            r == self@.grant_outcome(),
    {
        let (member_quorum, reputation_quorum, threshold) = match &self.payload {
            Payload::Grant(proposal) => (
                proposal.vote_configuration.member_quorum,
                proposal.vote_configuration.reputation_quorum,
                proposal.vote_configuration.threshold,
            ),
            Payload::Governance(_) => unreached(),
        };
        if self.total_staked_reputation.lt(&reputation_quorum) {
            VoteResult::ReputationQuorumUnmet
        } else if self.total_members < member_quorum {
            VoteResult::MemberQuorumUnmet
        } else {
            tally_of(&self.for_votes, &self.against_votes, &U256::from_u64(threshold as u64))
        }
    }

    /// The outcome of the vote on a governance proposal as the session stands.
    pub fn governance_outcome(&self) -> (r: VoteResult)
        requires
            self@.payload is Governance,
            self@.tally_fits(),
        ensures
            r == self@.governance_outcome(),
    {
        let (quorum, threshold) = match &self.payload {
            Payload::Governance(proposal) => (
                proposal.vote_configuration.full_vote_quorum,
                proposal.vote_configuration.full_vote_threshold,
            ),
            Payload::Grant(_) => unreached(),
        };
        if self.total_staked_reputation.lt(&quorum) {
            VoteResult::ReputationQuorumUnmet
        } else {
            tally_of(&self.for_votes, &self.against_votes, &U256::from_u64(threshold))
        }
    }

    /// Computes and records the outcome of a vote on a grant, once the vote has ended.
    ///
    /// Before the vote has ended the call fails with `VotingOngoing`, on a proposal that
    /// is not in its full vote with `VotingNotOngoing`; the session is unchanged then.
    /// Otherwise the outcome is `self@.grant_outcome()`, which depends on nothing but the
    /// session, and an approved grant has its input reputation set from its cost.
    pub fn calculate_vote_outcome(&mut self, current_time: u64, reputation_allocation_ratio: u64) -> (r:
        Result<VoteResult, VotingEngineError>)
        requires
            old(self)@.payload is Grant,
            old(self)@.tally_fits(),
            old(self)@.outcome_refusal(current_time) is None && old(self)@.grant_outcome()
                == VoteResult::Approved ==> input_reputation_defined(
                old(self)@.payload->Grant_0.cost@,
                reputation_allocation_ratio as nat,
            ),
        ensures
            match r {
                Ok(outcome) => old(self)@.outcome_refusal(current_time) is None && outcome == old(
                    self,
                )@.grant_outcome() && final(self)@ == old(self)@.after_grant_outcome(
                    reputation_allocation_ratio,
                ),
                Err(e) => old(self)@.outcome_refusal(current_time) == Some(e) && final(self)@
                    == old(self)@,
            },
    {
        match self.outcome_refusal(current_time) {
            Some(e) => {
                return Err(e);
            },
            None => {},
        }
        let outcome = self.grant_outcome();
        let cost = match &self.payload {
            Payload::Grant(proposal) => proposal.cost,
            Payload::Governance(_) => unreached(),
        };
        if outcome == VoteResult::Approved {
            let denominator: u64 = 1_000_000_000_000u64 / reputation_allocation_ratio;
            let scaled_cost = cost.mul(&U256::from_u64(10_000_000_000_000_000u64));
            assert(denominator >= 1) by (nonlinear_arith)
                requires
                    1 <= reputation_allocation_ratio <= 1_000_000_000_000u64,
                    denominator == 1_000_000_000_000u64 / reputation_allocation_ratio,
            ;
            self.input_reputation = scaled_cost.div(&U256::from_u64(denominator));
        }
        self.result = outcome;
        assert(self@ =~= old(self)@.after_grant_outcome(reputation_allocation_ratio));
        Ok(outcome)
    }

    /// Computes and records the outcome of a vote on a governance proposal, once the vote
    /// has ended, and hands back the parameter change that the proposal asks for.
    ///
    /// The flag beside the outcome says whether the change is confirmed: it is `true`
    /// where the outcome is `Approved` and the session had recorded `Approved` before.
    pub fn calculate_governance_vote_outcome(&mut self, current_time: u64) -> (r: Result<
        (VoteResult, (bool, (String, String))),
        VotingEngineError,
    >)
        requires
            old(self)@.payload is Governance,
            old(self)@.tally_fits(),
        ensures
            match r {
                Ok((outcome, (executed, (name, value)))) => {
                    &&& old(self)@.outcome_refusal(current_time) is None
                    &&& outcome == old(self)@.governance_outcome()
                    &&& executed == (outcome == VoteResult::Approved && old(self)@.result
                        == VoteResult::Approved)
                    &&& (name@, value@) == old(self)@.payload->Governance_0.new_variable_key_value
                    &&& final(self)@ == (VotingView { result: outcome, ..old(self)@ })
                },
                Err(e) => old(self)@.outcome_refusal(current_time) == Some(e) && final(self)@
                    == old(self)@,
            },
    {
        match self.outcome_refusal(current_time) {
            Some(e) => {
                return Err(e);
            },
            None => {},
        }
        let outcome = self.governance_outcome();
        let (name, value) = match &self.payload {
            Payload::Governance(proposal) => (
                proposal.new_variable_key_value.0.clone(),
                proposal.new_variable_key_value.1.clone(),
            ),
            Payload::Grant(_) => unreached(),
        };
        let executed = outcome == VoteResult::Approved && self.result == VoteResult::Approved;
        self.result = outcome;
        assert(self@ =~= (VotingView { result: outcome, ..old(self)@ }));
        Ok((outcome, (executed, (name, value))))
    }

    /// The record of a voter, looked for among the voters against first.
    pub fn voter_record(&self, voter: &AccountHash) -> (r: Option<VotingData>)
        ensures
            r == self@.record_of(*voter),
    {
        let key = voter.key();
        match self.against_voters.get(&key) {
            Some(record) => Some(*record),
            None => match self.for_voters.get(&key) {
                Some(record) => Some(*record),
                None => None,
            },
        }
    }

    /// Marks the record of a voter as claimed.
    fn mark_claimed(&mut self, caller: &AccountHash, record: VotingData)
        requires
            old(self)@.record_of(*caller) == Some(record),
        ensures
            final(self)@ == old(self)@.after_claim(*caller),
    {
        let key = caller.key();
        let claimed = VotingData {
            reputation_staked: record.reputation_staked,
            vote: record.vote,
            claimed: true,
        };
        if self.against_voters.contains_key(&key) {
            self.against_voters.insert(key, claimed);
        } else {
            self.for_voters.insert(key, claimed);
        }
        assert(self@ =~= old(self)@.after_claim(*caller));
    }

    /// Pays out what a decided vote entitles the caller to, once.
    ///
    /// The claim fails with `VoteFailed` unless the vote was approved or rejected, with
    /// `NoReputationToClaim` for a caller who has not voted, and with
    /// `ReputationAlreadyClaimed` for one who has claimed; the session is unchanged then.
    /// Otherwise the caller's record is marked as claimed and the entitlement is returned.
    pub fn claim_reputation(&mut self, caller: AccountHash) -> (r: Result<U256, VotingEngineError>)
        requires
            old(self)@.wf(),
            old(self)@.tally_fits(),
            old(self)@.result_agrees(),
        ensures
            match r {
                Ok(amount) => {
                    &&& old(self)@.claim_refusal(caller) is None
                    &&& amount@ == old(self)@.entitlement(
                        caller,
                        old(self)@.record_of(caller)->Some_0,
                    )
                    &&& final(self)@ == old(self)@.after_claim(caller)
                },
                Err(e) => old(self)@.claim_refusal(caller) == Some(e) && final(self)@ == old(
                    self,
                )@,
            },
    {
        if !self.result.is_decided() {
            return Err(VotingEngineError::VoteFailed);
        }
        let record = match self.voter_record(&caller) {
            Some(record) => record,
            None => {
                return Err(VotingEngineError::NoReputationToClaim);
            },
        };
        if record.claimed {
            return Err(VotingEngineError::ReputationAlreadyClaimed);
        }
        let vote_rejected = self.result == VoteResult::Rejected;
        let (similar_votes, opposite_votes) = if vote_rejected {
            (self.against_votes, self.for_votes)
        } else {
            (self.for_votes, self.against_votes)
        };
        let stake = record.reputation_staked;
        let shares = voter_shares_of(&stake, &similar_votes);
        proof {
            lemma_product_bounded(shares@, opposite_votes@, 100, opposite_votes@);
            lemma_quotient_bounded(shares@ * opposite_votes@, 100, opposite_votes@);
        }
        let share = shares.mul(&opposite_votes).div(&U256::from_u64(100));
        let bonus = match &self.payload {
            Payload::Grant(proposal) => {
                if vote_rejected {
                    U256::zero()
                } else {
                    let policing_ratio = proposal.ratios.policing_ratio;
                    let pool = self.input_reputation.div(&U256::from_u64(1_000_000_000_000u64));
                    proof {
                        self.input_reputation.lemma_bounded();
                        lemma_quotient_times_divisor(self.input_reputation@, 1_000_000_000_000);
                    }
                    if caller.same(&proposal.proposer) {
                        let part = U256::from_u64((100 - policing_ratio) as u64);
                        proof {
                            lemma_product_bounded(pool@, part@, pool@, 100);
                            lemma_quotient_bounded(pool@ * part@, 100, pool@);
                        }
                        pool.mul(&part).div(&U256::from_u64(100))
                    } else if record.vote {
                        let part = U256::from_u64(policing_ratio as u64);
                        proof {
                            lemma_product_bounded(pool@, part@, pool@, 100);
                            lemma_quotient_bounded(pool@ * part@, 100, pool@);
                        }
                        let reserved = pool.mul(&part).div(&U256::from_u64(100));
                        proof {
                            lemma_product_bounded(reserved@, shares@, pool@, 100);
                            lemma_quotient_bounded(reserved@ * shares@, 100, pool@);
                        }
                        reserved.mul(&shares).div(&U256::from_u64(100))
                    } else {
                        U256::zero()
                    }
                }
            },
            Payload::Governance(_) => U256::zero(),
        };
        let amount = stake.add(&share).add(&bonus);
        self.mark_claimed(&caller, record);
        Ok(amount)
    }

    /// Hands back the stake of the caller after a vote that failed, once.
    ///
    /// The call fails with `VoteDidNotFail` unless the vote ended on a missed quorum, a
    /// missed threshold or unmet criteria, with `NoReputationToClaim` for a caller who has
    /// not voted, and with `ReputationAlreadyClaimed` for one who has claimed; the session
    /// is unchanged then. Otherwise the caller's record is marked as claimed and the stake
    /// is returned.
    pub fn get_stake(&mut self, caller: AccountHash) -> (r: Result<U256, VotingEngineError>)
        ensures
            match r {
                Ok(amount) => {
                    &&& old(self)@.stake_refusal(caller) is None
                    &&& amount == old(self)@.record_of(caller)->Some_0.reputation_staked
                    &&& final(self)@ == old(self)@.after_claim(caller)
                },
                Err(e) => old(self)@.stake_refusal(caller) == Some(e) && final(self)@ == old(
                    self,
                )@,
            },
    {
        if !self.result.is_failed() {
            return Err(VotingEngineError::VoteDidNotFail);
        }
        let record = match self.voter_record(&caller) {
            Some(record) => record,
            None => {
                return Err(VotingEngineError::NoReputationToClaim);
            },
        };
        if record.claimed {
            return Err(VotingEngineError::ReputationAlreadyClaimed);
        }
        self.mark_claimed(&caller, record);
        Ok(record.reputation_staked)
    }
}


/// The flat form of the record of a voter.
pub open spec fn voting_data_tuple(d: VotingData) -> VotingDataSerialized {
    (d.reputation_staked, d.vote, d.claimed)
}

/// The record of a voter that a flat form holds.
pub open spec fn voting_data_of(t: VotingDataSerialized) -> VotingData {
    VotingData { reputation_staked: t.0, vote: t.1, claimed: t.2 }
}

impl Voting {
    /// Whether `s` is the flat form of the session `v`: every field in its place, the
    /// proposal in the place of its kind with the other place empty, the kind as 0 for a
    /// grant and 1 for a governance proposal, the result as its code.
    pub open spec fn is_serialized(v: VotingView, s: VotingSerialized) -> bool {
        &&& s.0.0.0 == v.start_timestamp
        &&& s.0.0.1 == v.total_members
        &&& s.0.0.2@ == v.total_staked_reputation
        &&& match v.payload {
            PayloadView::Grant(p) => {
                &&& s.0.1.0 matches Some(flat)
                &&& Proposal::is_serialized(p, flat)
                &&& s.0.1.1 is None
                &&& s.0.1.2 == 0
            },
            PayloadView::Governance(g) => {
                &&& s.0.1.0 is None
                &&& s.0.1.1 matches Some(flat)
                &&& GovernanceProposal::is_serialized(g, flat)
                &&& s.0.1.2 == 1
            },
        }
        &&& s.1.0@ == v.for_votes
        &&& s.1.1@ == v.against_votes
        &&& s.1.2@ == v.input_reputation
        &&& s.2.0@ == v.for_voters.map_values(|d: VotingData| voting_data_tuple(d))
        &&& s.2.1@ == v.against_voters.map_values(|d: VotingData| voting_data_tuple(d))
        &&& s.2.2 == v.result.spec_code()
    }

    /// Whether a flat form holds the proposal that its kind announces: a governance
    /// proposal under kind 1, a grant proposal under any other.
    pub open spec fn holds_payload(s: VotingSerialized) -> bool {
        if s.0.1.2 == 1 {
            s.0.1.1 is Some
        } else {
            s.0.1.0 is Some
        }
    }

    /// The session that a flat form holds.
    pub open spec fn spec_deserialize(s: VotingSerialized) -> VotingView
        recommends
            Voting::holds_payload(s),
    {
        VotingView {
            start_timestamp: s.0.0.0,
            total_members: s.0.0.1,
            total_staked_reputation: s.0.0.2@,
            payload: if s.0.1.2 == 1 {
                PayloadView::Governance(GovernanceProposal::spec_deserialize(s.0.1.1->Some_0))
            } else {
                PayloadView::Grant(Proposal::spec_deserialize(s.0.1.0->Some_0))
            },
            for_votes: s.1.0@,
            against_votes: s.1.1@,
            input_reputation: s.1.2@,
            for_voters: s.2.0@.map_values(|t: VotingDataSerialized| voting_data_of(t)),
            against_voters: s.2.1@.map_values(|t: VotingDataSerialized| voting_data_of(t)),
            result: VoteResult::spec_from_code(s.2.2),
        }
    }

    /// Reading the flat form of a session gives the session back.
    pub proof fn lemma_round_trip(v: VotingView, s: VotingSerialized)
        requires
            Voting::is_serialized(v, s),
        ensures
            Voting::holds_payload(s),
            Voting::spec_deserialize(s) == v,
    {
        let d = Voting::spec_deserialize(s);
        match v.payload {
            PayloadView::Grant(p) => {
                Proposal::lemma_round_trip(p, s.0.1.0->Some_0);
            },
            PayloadView::Governance(g) => {
                GovernanceProposal::lemma_round_trip(g, s.0.1.1->Some_0);
            },
        }
        assert(d.for_voters =~= v.for_voters);
        assert(d.against_voters =~= v.against_voters);
        assert(d =~= v);
    }

    /// The flat form of the session.
    pub fn serialize(&self) -> (r: VotingSerialized)
        ensures
            Voting::is_serialized(self@, r),
    {
        let (proposal_option, governance_proposal_option, kind) = match &self.payload {
            Payload::Grant(proposal) => (Some(proposal.serialize()), None, 0u8),
            Payload::Governance(proposal) => (None, Some(proposal.serialize()), 1u8),
        };
        let (for_voters, against_voters) = self.serialize_voters();
        (
            (
                (self.start_timestamp, self.total_members, self.total_staked_reputation),
                (proposal_option, governance_proposal_option, kind),
            ),
            (self.for_votes, self.against_votes, self.input_reputation),
            (for_voters, against_voters, self.result.code()),
        )
    }

    /// The flat forms of the voters for and of the voters against.
    pub fn serialize_voters(&self) -> (r: (VotersSerialized, VotersSerialized))
        ensures
            r.0@ == self.for_voters@.map_values(|d: VotingData| voting_data_tuple(d)),
            r.1@ == self.against_voters@.map_values(|d: VotingData| voting_data_tuple(d)),
    {
        (Self::serialize_side(&self.for_voters), Self::serialize_side(&self.against_voters))
    }

    /// The flat forms of the voters of one side.
    fn serialize_side(voters: &BTreeMap<(u128, u128), VotingData>) -> (r: VotersSerialized)
        ensures
            r@ == voters@.map_values(|d: VotingData| voting_data_tuple(d)),
    {
        let mut output: VotersSerialized = BTreeMap::new();
        for entry in it: voters.iter()
            invariant
                it.seq() == voters.iter().remaining(),
                forall|k: (u128, u128)| #[trigger]
                    output@.contains_key(k) <==> exists|j: int|
                        0 <= j < it.index() && *(#[trigger] it.seq()[j]).0 == k,
                forall|k: (u128, u128)| #[trigger]
                    output@.contains_key(k) ==> voters@.contains_key(k) && output@[k]
                        == voting_data_tuple(voters@[k]),
        {
            let (key, voting_data) = entry;
            assert(entry == it.seq()[it.index() as int]);
            output.insert(
                *key,
                (voting_data.reputation_staked, voting_data.vote, voting_data.claimed),
            );
        }
        assert(output@ =~= voters@.map_values(|d: VotingData| voting_data_tuple(d)));
        output
    }

    /// The session that a flat form holds. The form must hold the proposal that its kind
    /// announces.
    pub fn deserialize(serialized_voting: VotingSerialized) -> (r: Voting)
        requires
            Voting::holds_payload(serialized_voting),
        ensures
            r@ == Voting::spec_deserialize(serialized_voting),
    {
        let for_voters = Voting::deserialize_voters(&serialized_voting.2.0);
        let against_voters = Voting::deserialize_voters(&serialized_voting.2.1);
        let ((counts, (grant, governance, kind)), totals, (_, _, result)) = serialized_voting;
        let payload = if kind == 1 {
            match governance {
                Some(flat) => Payload::Governance(GovernanceProposal::deserialize(flat)),
                None => unreached(),
            }
        } else {
            match grant {
                Some(flat) => Payload::Grant(Proposal::deserialize(flat)),
                None => unreached(),
            }
        };
        let r = Voting {
            start_timestamp: counts.0,
            total_members: counts.1,
            total_staked_reputation: counts.2,
            payload,
            for_votes: totals.0,
            against_votes: totals.1,
            input_reputation: totals.2,
            for_voters,
            against_voters,
            result: VoteResult::from_code(result),
        };
        assert(r@ =~= Voting::spec_deserialize(serialized_voting));
        r
    }

    /// The records of the voters that a map of flat forms holds.
    pub fn deserialize_voters(voters_serialized: &VotersSerialized) -> (r: BTreeMap<
        (u128, u128),
        VotingData,
    >)
        ensures
            r@ == voters_serialized@.map_values(|t: VotingDataSerialized| voting_data_of(t)),
    {
        let mut deserialized_voters: BTreeMap<(u128, u128), VotingData> = BTreeMap::new();
        for entry in it: voters_serialized.iter()
            invariant
                it.seq() == voters_serialized.iter().remaining(),
                forall|k: (u128, u128)| #[trigger]
                    deserialized_voters@.contains_key(k) <==> exists|j: int|
                        0 <= j < it.index() && *(#[trigger] it.seq()[j]).0 == k,
                forall|k: (u128, u128)| #[trigger]
                    deserialized_voters@.contains_key(k) ==> voters_serialized@.contains_key(k)
                        && deserialized_voters@[k] == voting_data_of(voters_serialized@[k]),
        {
            let (key, voting_data) = entry;
            assert(entry == it.seq()[it.index() as int]);
            deserialized_voters.insert(
                *key,
                VotingData {
                    reputation_staked: voting_data.0,
                    vote: voting_data.1,
                    claimed: voting_data.2,
                },
            );
        }
        assert(deserialized_voters@ =~= voters_serialized@.map_values(
            |t: VotingDataSerialized| voting_data_of(t),
        ));
        deserialized_voters
    }
}

/// One call of `cast_vote`: who votes, when, with what balance, stake and commitment,
/// and on which side.
pub struct VoteCall {
    pub caller: AccountHash,
    pub current_time: u64,
    pub reputation_balance: U256,
    pub reputation_to_stake: U256,
    pub committed_reputation: U256,
    pub vote_direction: bool,
}

impl VotingView {
    /// The session after one call of `cast_vote`: changed where the vote is accepted,
    /// the same where it is refused.
    pub open spec fn after_call(self, call: VoteCall) -> VotingView {
        if self.cast_vote_refusal(
            call.caller,
            call.current_time,
            call.reputation_balance@,
            call.reputation_to_stake@,
            call.committed_reputation@,
        ) is None {
            self.after_cast_vote(call.caller, call.reputation_to_stake, call.vote_direction)
        } else {
            self
        }
    }

    /// The session after a sequence of calls of `cast_vote`.
    pub open spec fn after_calls(self, calls: Seq<VoteCall>) -> VotingView
        decreases calls.len(),
    {
        if calls.len() == 0 {
            self
        } else {
            self.after_calls(calls.drop_last()).after_call(calls.last())
        }
    }

    /// A session without votes is well formed where its grant keeps at most its whole
    /// bonus for the policing voters.
    pub proof fn lemma_initial_wf(start_timestamp: u64, payload: PayloadView)
        requires
            payload matches PayloadView::Grant(p) ==> p.ratios.policing_ratio <= 100,
        ensures
            VotingView::initial(start_timestamp, payload).wf(),
    {
    }

    /// An accepted vote keeps the accounts: the two sides still add up to the total stake
    /// and nobody is recorded on both sides.
    pub proof fn lemma_vote_keeps_accounts(self, call: VoteCall)
        requires
            self.wf(),
        ensures
            self.after_call(call).wf(),
            self.after_call(call).for_votes + self.after_call(call).against_votes
                == self.after_call(call).total_staked_reputation,
            forall|k: (u128, u128)|
                !(#[trigger] self.after_call(call).for_voters.contains_key(k) && self.after_call(
                    call,
                ).against_voters.contains_key(k)),
    {
    }

    /// After any sequence of votes on a well-formed session, the two sides add up to the
    /// total stake and nobody is recorded on both sides.
    pub proof fn lemma_votes_keep_accounts(self, calls: Seq<VoteCall>)
        requires
            self.wf(),
        ensures
            self.after_calls(calls).wf(),
            self.after_calls(calls).for_votes + self.after_calls(calls).against_votes
                == self.after_calls(calls).total_staked_reputation,
            forall|k: (u128, u128)|
                !(#[trigger] self.after_calls(calls).for_voters.contains_key(k)
                    && self.after_calls(calls).against_voters.contains_key(k)),
        decreases calls.len(),
    {
        if calls.len() > 0 {
            self.lemma_votes_keep_accounts(calls.drop_last());
            self.after_calls(calls.drop_last()).lemma_vote_keeps_accounts(calls.last());
        }
    }

    /// The outcome of a vote on a grant depends on the votes and the rules alone:
    /// recording it changes neither, so that computing it again gives the same outcome
    /// and leaves the session, its input reputation included, as the first computation
    /// left it.
    pub proof fn lemma_grant_outcome_repeatable(self, reputation_allocation_ratio: u64)
        requires
            self.payload is Grant,
        ensures
            self.after_grant_outcome(reputation_allocation_ratio).grant_outcome()
                == self.grant_outcome(),
            self.after_grant_outcome(reputation_allocation_ratio).after_grant_outcome(
                reputation_allocation_ratio,
            ) == self.after_grant_outcome(reputation_allocation_ratio),
            forall|now: u64|
                self.after_grant_outcome(reputation_allocation_ratio).outcome_refusal(now)
                    == self.outcome_refusal(now),
    {
    }

    /// The outcome that `calculate_vote_outcome` records agrees with the votes.
    pub proof fn lemma_grant_outcome_agrees(self, reputation_allocation_ratio: u64)
        requires
            self.payload is Grant,
        ensures
            self.after_grant_outcome(reputation_allocation_ratio).result_agrees(),
    {
        let p = self.payload->Grant_0;
        lemma_tally_decided(self.for_votes, self.against_votes, p.vote_configuration.threshold as nat);
    }

    /// A voter who has claimed cannot claim again: the second claim is refused with
    /// `ReputationAlreadyClaimed`.
    pub proof fn lemma_second_claim_refused(self, caller: AccountHash)
        requires
            self.claim_refusal(caller) is None,
        ensures
            self.after_claim(caller).claim_refusal(caller) == Some(
                VotingEngineError::ReputationAlreadyClaimed,
            ),
    {
    }

    /// A claim changes nothing but the flag of the claimant: the totals stay, and a voter
    /// who had claimed before has still claimed after.
    pub proof fn lemma_claim_keeps_flags(self, caller: AccountHash, other: AccountHash)
        requires
            self.record_of(other) matches Some(record) && record.claimed,
        ensures
            self.after_claim(caller).record_of(other) matches Some(record) && record.claimed,
            self.after_claim(caller).for_votes == self.for_votes,
            self.after_claim(caller).against_votes == self.against_votes,
            self.after_claim(caller).total_staked_reputation == self.total_staked_reputation,
    {
    }
}


impl Voting {
    /// Whether every voter of one side is recorded with the vote of that side and a stake
    /// within the side's total, and is not recorded on the other side.
    fn side_is_well_formed(
        voters: &BTreeMap<(u128, u128), VotingData>,
        others: &BTreeMap<(u128, u128), VotingData>,
        side: bool,
        side_total: &U256,
    ) -> (r: bool)
        ensures
            r == (forall|k: (u128, u128)| #[trigger]
                voters@.contains_key(k) ==> voters@[k].vote == side
                    && voters@[k].reputation_staked@ <= side_total@ && !others@.contains_key(k)),
    {
        let ghost mut checked: Set<(u128, u128)> = Set::empty();
        for entry in it: voters.iter()
            invariant
                it.seq() == voters.iter().remaining(),
                forall|k: (u128, u128)| #[trigger]
                    checked.contains(k) <==> exists|j: int|
                        0 <= j < it.index() && *(#[trigger] it.seq()[j]).0 == k,
                forall|k: (u128, u128)| #[trigger]
                    checked.contains(k) ==> voters@.contains_key(k) && voters@[k].vote == side
                        && voters@[k].reputation_staked@ <= side_total@ && !others@.contains_key(
                        k,
                    ),
        {
            let (key, record) = entry;
            assert(entry == it.seq()[it.index() as int]);
            if record.vote != side || record.reputation_staked.gt(side_total)
                || others.contains_key(key) {
                assert(voters@.contains_key(*key));
                return false;
            }
            proof {
                checked = checked.insert(*key);
            }
        }
        assert(checked =~= voters@.dom());
        true
    }

    /// Whether the session is well formed.
    pub fn is_well_formed(&self) -> (r: bool)
        ensures
            r == self@.wf(),
    {
        let sums_agree = match self.for_votes.checked_add(&self.against_votes) {
            Some(sum) => sum.same(&self.total_staked_reputation),
            None => {
                proof {
                    self.total_staked_reputation.lemma_bounded();
                }
                false
            },
        };
        if !sums_agree {
            return false;
        }
        let ratio_in_range = match &self.payload {
            Payload::Grant(proposal) => proposal.ratios.policing_ratio <= 100,
            Payload::Governance(_) => true,
        };
        if !ratio_in_range {
            return false;
        }
        let for_side = Self::side_is_well_formed(
            &self.for_voters,
            &self.against_voters,
            true,
            &self.for_votes,
        );
        if !for_side {
            proof {
                let k = choose|k: (u128, u128)| #[trigger]
                    self.for_voters@.contains_key(k) && !(self.for_voters@[k].vote
                        && self.for_voters@[k].reputation_staked@ <= self.for_votes@
                        && !self.against_voters@.contains_key(k));
                assert(self@.for_voters.contains_key(k));
            }
            return false;
        }
        let against_side = Self::side_is_well_formed(
            &self.against_voters,
            &self.for_voters,
            false,
            &self.against_votes,
        );
        proof {
            if !against_side {
                let k = choose|k: (u128, u128)| #[trigger]
                    self.against_voters@.contains_key(k) && !(!self.against_voters@[k].vote
                        && self.against_voters@[k].reputation_staked@ <= self.against_votes@
                        && !self.for_voters@.contains_key(k));
                assert(self@.against_voters.contains_key(k));
            }
        }
        against_side
    }

    /// Why a vote would be refused, if it would be.
    pub fn cast_vote_refusal(
        &self,
        caller: &AccountHash,
        current_time: u64,
        reputation_balance: &U256,
        reputation_to_stake: &U256,
        committed_reputation: &U256,
    ) -> (r: Option<VotingEngineError>)
        ensures
            r == self@.cast_vote_refusal(
                *caller,
                current_time,
                reputation_balance@,
                reputation_to_stake@,
                committed_reputation@,
            ),
    {
        let key = caller.key();
        let is_for_voter = self.for_voters.contains_key(&key);
        let is_against_voter = self.against_voters.contains_key(&key);
        if is_against_voter || is_for_voter {
            return Some(VotingEngineError::AlreadyVoted);
        }
        if current_time > self.payload.timeout() {
            return Some(VotingEngineError::VotingEnded);
        }
        if self.payload.status() != ProposalStatus::InFullVote {
            return Some(VotingEngineError::VotingNotOngoing);
        }
        let within_free_balance = match reputation_balance.checked_sub(committed_reputation) {
            Some(free) => reputation_to_stake.le(&free),
            None => false,
        };
        if !within_free_balance {
            return Some(VotingEngineError::InvalidReputationToStake);
        }
        match &self.payload {
            Payload::Grant(proposal) => {
                let staking_ratio = match reputation_to_stake.checked_div(reputation_balance) {
                    Some(ratio) => ratio,
                    None => U256::zero(),
                };
                if staking_ratio.gt(&proposal.vote_configuration.voter_staking_limits) {
                    return Some(VotingEngineError::StakingLimitReached);
                }
            },
            Payload::Governance(_) => {},
        }
        None
    }

    /// Whether one more vote with this stake can be counted.
    pub fn vote_fits(&self, reputation_to_stake: &U256) -> (r: bool)
        ensures
            r == self@.vote_fits(reputation_to_stake@),
    {
        self.total_members < u64::MAX && self.total_staked_reputation.checked_add(
            reputation_to_stake,
        ).is_some()
    }

    /// Whether the percentages of this session can be computed in 256 bits.
    pub fn tally_fits(&self) -> (r: bool)
        ensures
            r == self@.tally_fits(),
    {
        match self.for_votes.checked_add(&self.against_votes) {
            Some(total_votes) => total_votes.checked_mul(&U256::from_u64(10000)).is_some(),
            None => false,
        }
    }

    /// Whether the recorded result agrees with the recorded votes.
    pub fn result_agrees(&self) -> (r: bool)
        ensures
            r == self@.result_agrees(),
    {
        match self.result {
            VoteResult::Approved => self.for_votes.gt(&self.against_votes),
            VoteResult::Rejected => self.against_votes.ge(&self.for_votes)
                && !self.against_votes.is_zero(),
            _ => true,
        }
    }

    /// Whether a flat form holds the proposal that its kind announces.
    pub fn can_deserialize(serialized_voting: &VotingSerialized) -> (r: bool)
        ensures
            r == Voting::holds_payload(*serialized_voting),
    {
        if serialized_voting.0.1.2 == 1 {
            serialized_voting.0.1.1.is_some()
        } else {
            serialized_voting.0.1.0.is_some()
        }
    }
}

/// Whether the input reputation of a grant of this cost can be computed under this
/// allocation ratio.
pub fn is_input_reputation_defined(cost: &U256, reputation_allocation_ratio: u64) -> (r: bool)
    ensures
        r == input_reputation_defined(cost@, reputation_allocation_ratio as nat),
{
    1 <= reputation_allocation_ratio && reputation_allocation_ratio <= 1_000_000_000_000u64
        && cost.checked_mul(&U256::from_u64(10_000_000_000_000_000u64)).is_some()
}


} // verus!
