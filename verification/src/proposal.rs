//! Proposals: what a member asks the organisation to fund or to change.
//!
//! A grant proposal is checked when it is built (ratios, category, stake, tranche sums,
//! progress percentages) and is open for voting from then on. A governance proposal asks
//! for one parameter change and is checked for the proposer's stake only.
use crate::account::AccountHash;
use crate::custom_types::{
    FundingTrancheSerialized, GovernanceProposalSerialized, GovernanceVoteConfigurationSerialized,
    MilestoneSerialized, MilestonesSerialized, ProposalSerialized, RatiosSerialized,
    SponsorsSerialized, VoteConfigurationSerialized,
};
use crate::error::ProposalError;
use crate::uint::{u256_max, U256};
use std::collections::BTreeMap;
use vstd::prelude::*;
use vstd::std_specs::iter::IteratorSpec;

verus! {

/// One payment of a milestone.
#[derive(Clone, Copy, Debug, PartialEq, Eq, Structural)]
pub struct FundingTranche {
    pub funding_tranche_type: u8,
    pub amount: U256,
    pub reputation_allocation: U256,
}

/// One phase of a grant, with the tranches it releases and the time by which it must
/// be claimed.
#[derive(Debug, PartialEq, Eq)]
pub struct Milestone {
    pub milestone_type: u8,
    pub progress_percentage: u8,
    pub result: u8,
    pub funding_tranches: BTreeMap<u64, FundingTranche>,
    pub funding_tranches_size: u64,
    pub timeout: u64,
}

/// A milestone as a mathematical value.
#[verifier::ext_equal]
pub struct MilestoneView {
    pub milestone_type: u8,
    pub progress_percentage: u8,
    pub result: u8,
    pub funding_tranches: Map<u64, FundingTranche>,
    pub funding_tranches_size: u64,
    pub timeout: u64,
}

impl View for Milestone {
    type V = MilestoneView;

    open spec fn view(&self) -> MilestoneView {
        MilestoneView {
            milestone_type: self.milestone_type,
            progress_percentage: self.progress_percentage,
            result: self.result,
            funding_tranches: self.funding_tranches@,
            funding_tranches_size: self.funding_tranches_size,
            timeout: self.timeout,
        }
    }
}

impl Clone for Milestone {
    fn clone(&self) -> (r: Self)
        ensures
            r@ == self@,
    {
        Milestone {
            milestone_type: self.milestone_type,
            progress_percentage: self.progress_percentage,
            result: self.result,
            funding_tranches: self.funding_tranches.clone(),
            funding_tranches_size: self.funding_tranches_size,
            timeout: self.timeout,
        }
    }
}

/// How the reputation that a grant brings is shared, in percent.
#[derive(Clone, Copy, Debug, PartialEq, Eq, Structural)]
pub struct Ratios {
    pub policing_ratio: u8,
    pub op_ratio: u8,
    pub citation_ratio: u8,
}

/// The rules of the vote on a grant proposal.
#[derive(Clone, Copy, Debug, PartialEq, Eq, Structural)]
pub struct VoteConfiguration {
    pub member_quorum: u64,
    pub reputation_quorum: U256,
    pub threshold: u8,
    /// The time at which the vote ends.
    pub timeout: u64,
    pub voter_staking_limits: U256,
}

/// The rules of the two votes on a governance proposal.
#[derive(Debug, PartialEq, Eq)]
pub struct GovernanceVoteConfiguration {
    pub transition_vote_quorum: U256,
    pub transition_vote_threshold: u64,
    pub proposal_repository_address: String,
    pub full_vote_quorum: U256,
    pub full_vote_threshold: u64,
    pub timeout: u64,
}

/// The rules of a governance vote as a mathematical value.
pub struct GovernanceVoteConfigurationView {
    pub transition_vote_quorum: U256,
    pub transition_vote_threshold: u64,
    pub proposal_repository_address: Seq<char>,
    pub full_vote_quorum: U256,
    pub full_vote_threshold: u64,
    pub timeout: u64,
}

impl View for GovernanceVoteConfiguration {
    type V = GovernanceVoteConfigurationView;

    open spec fn view(&self) -> GovernanceVoteConfigurationView {
        GovernanceVoteConfigurationView {
            transition_vote_quorum: self.transition_vote_quorum,
            transition_vote_threshold: self.transition_vote_threshold,
            proposal_repository_address: self.proposal_repository_address@,
            full_vote_quorum: self.full_vote_quorum,
            full_vote_threshold: self.full_vote_threshold,
            timeout: self.timeout,
        }
    }
}

impl Clone for GovernanceVoteConfiguration {
    fn clone(&self) -> (r: Self)
        ensures
            r@ == self@,
    {
        GovernanceVoteConfiguration {
            transition_vote_quorum: self.transition_vote_quorum,
            transition_vote_threshold: self.transition_vote_threshold,
            proposal_repository_address: self.proposal_repository_address.clone(),
            full_vote_quorum: self.full_vote_quorum,
            full_vote_threshold: self.full_vote_threshold,
            timeout: self.timeout,
        }
    }
}

/// What a proposal asks for.
#[derive(Clone, Copy, Debug, PartialEq, Eq, Structural)]
pub enum ProposalType {
    Grant,
    Governance,
    /// The acceptance of the analysis of a milestone, voted on like a grant.
    AnalysisAcceptance,
}

/// Where a proposal stands.
#[derive(Clone, Copy, Debug, PartialEq, Eq, Structural)]
pub enum ProposalStatus {
    WaitingFullVote,
    InFullVote,
    FullVoteComplete,
}

impl ProposalType {
    /// The code under which the type is stored.
    pub open spec fn spec_code(self) -> u8 {
        match self {
            ProposalType::Grant => 0,
            ProposalType::Governance => 1,
            ProposalType::AnalysisAcceptance => 2,
        }
    }

    /// The type stored under a code; a code that names none reads as a grant.
    pub open spec fn spec_from_code(code: u8) -> ProposalType {
        if code == 1 {
            ProposalType::Governance
        } else if code == 2 {
            ProposalType::AnalysisAcceptance
        } else {
            ProposalType::Grant
        }
    }

    /// The code under which the type is stored.
    pub fn code(&self) -> (r: u8)
        ensures
            r == self.spec_code(),
    {
        match self {
            ProposalType::Grant => 0,
            ProposalType::Governance => 1,
            ProposalType::AnalysisAcceptance => 2,
        }
    }

    /// The type stored under a code; a code that names none reads as a grant.
    pub fn from_code(code: u8) -> (r: ProposalType)
        ensures
            r == ProposalType::spec_from_code(code),
    {
        if code == 1 {
            ProposalType::Governance
        } else if code == 2 {
            ProposalType::AnalysisAcceptance
        } else {
            ProposalType::Grant
        }
    }
}

impl ProposalStatus {
    /// The code under which the status is stored.
    pub open spec fn spec_code(self) -> u8 {
        match self {
            ProposalStatus::WaitingFullVote => 0,
            ProposalStatus::InFullVote => 1,
            ProposalStatus::FullVoteComplete => 2,
        }
    }

    /// The status stored under a code; a code that names none reads as waiting.
    pub open spec fn spec_from_code(code: u8) -> ProposalStatus {
        if code == 1 {
            ProposalStatus::InFullVote
        } else if code == 2 {
            ProposalStatus::FullVoteComplete
        } else {
            ProposalStatus::WaitingFullVote
        }
    }

    /// The code under which the status is stored.
    pub fn code(&self) -> (r: u8)
        ensures
            r == self.spec_code(),
    {
        match self {
            ProposalStatus::WaitingFullVote => 0,
            ProposalStatus::InFullVote => 1,
            ProposalStatus::FullVoteComplete => 2,
        }
    }

    /// The status stored under a code; a code that names none reads as waiting.
    pub fn from_code(code: u8) -> (r: ProposalStatus)
        ensures
            r == ProposalStatus::spec_from_code(code),
    {
        if code == 1 {
            ProposalStatus::InFullVote
        } else if code == 2 {
            ProposalStatus::FullVoteComplete
        } else {
            ProposalStatus::WaitingFullVote
        }
    }
}

/// A request for a grant, paid out milestone by milestone.
#[derive(Debug, PartialEq, Eq)]
pub struct Proposal {
    pub name: String,
    pub storage_pointer: String,
    pub storage_fingerprint: String,
    pub proposal_type: ProposalType,
    pub proposer: AccountHash,
    pub citations: Vec<u64>,
    pub ratios: Ratios,
    pub vote_configuration: VoteConfiguration,
    pub milestones: BTreeMap<u64, Milestone>,
    pub proposal_status: ProposalStatus,
    /// The pledged amount of each sponsor, by the key of the sponsor's account.
    pub sponsors: BTreeMap<(u128, u128), U256>,
    pub cost: U256,
}

/// A grant proposal as a mathematical value.
#[verifier::ext_equal]
pub struct ProposalView {
    pub name: Seq<char>,
    pub storage_pointer: Seq<char>,
    pub storage_fingerprint: Seq<char>,
    pub proposal_type: ProposalType,
    pub proposer: AccountHash,
    pub citations: Seq<u64>,
    pub ratios: Ratios,
    pub vote_configuration: VoteConfiguration,
    pub milestones: Map<u64, MilestoneView>,
    pub proposal_status: ProposalStatus,
    pub sponsors: Map<(u128, u128), U256>,
    pub cost: U256,
}

/// The milestones of a map, each as a mathematical value.
pub open spec fn milestones_view(m: Map<u64, Milestone>) -> Map<u64, MilestoneView> {
    m.map_values(|x: Milestone| x@)
}

impl View for Proposal {
    type V = ProposalView;

    open spec fn view(&self) -> ProposalView {
        ProposalView {
            name: self.name@,
            storage_pointer: self.storage_pointer@,
            storage_fingerprint: self.storage_fingerprint@,
            proposal_type: self.proposal_type,
            proposer: self.proposer,
            citations: self.citations@,
            ratios: self.ratios,
            vote_configuration: self.vote_configuration,
            milestones: milestones_view(self.milestones@),
            proposal_status: self.proposal_status,
            sponsors: self.sponsors@,
            cost: self.cost,
        }
    }
}

/// A tranche as it is handed to `Proposal::new`: type, amount, reputation allocation.
pub type TrancheInput = (u8, U256, U256);

/// A milestone as it is handed to `Proposal::new`: (type, progress percentage,
/// tranches), then the timeout.
pub type MilestoneInput = ((u8, u8, Vec<TrancheInput>), u64);

/// The tranche that an input describes.
pub open spec fn tranche_of(t: TrancheInput) -> FundingTranche {
    FundingTranche { funding_tranche_type: t.0, amount: t.1, reputation_allocation: t.2 }
}

/// The tranches of a list, each under its position.
pub open spec fn tranches_map(ts: Seq<TrancheInput>) -> Map<u64, FundingTranche> {
    Map::new(|k: u64| (k as int) < ts.len(), |k: u64| tranche_of(ts[k as int]))
}

/// The sum of the amounts of a list of tranches.
pub open spec fn tranches_sum(ts: Seq<TrancheInput>) -> nat
    decreases ts.len(),
{
    if ts.len() == 0 {
        0
    } else {
        tranches_sum(ts.drop_last()) + ts.last().1@
    }
}

/// The milestone that an input describes: its result is still open (code 2).
pub open spec fn milestone_of(m: MilestoneInput) -> MilestoneView {
    MilestoneView {
        milestone_type: m.0.0,
        progress_percentage: m.0.1,
        result: 2,
        funding_tranches: tranches_map(m.0.2@),
        funding_tranches_size: m.0.2@.len() as u64,
        timeout: m.1,
    }
}

/// The milestones of a list, each under its position.
pub open spec fn milestones_map(ms: Seq<MilestoneInput>) -> Map<u64, MilestoneView> {
    Map::new(|k: u64| (k as int) < ms.len(), |k: u64| milestone_of(ms[k as int]))
}

/// The sum of the amounts of all tranches of all milestones of a list.
pub open spec fn milestones_sum(ms: Seq<MilestoneInput>) -> nat
    decreases ms.len(),
{
    if ms.len() == 0 {
        0
    } else {
        milestones_sum(ms.drop_last()) + tranches_sum(ms.last().0.2@)
    }
}

/// The sum of the progress percentages of the milestones of a list.
pub open spec fn progress_sum(ms: Seq<MilestoneInput>) -> nat
    decreases ms.len(),
{
    if ms.len() == 0 {
        0
    } else {
        progress_sum(ms.drop_last()) + ms.last().0.1 as nat
    }
}

/// The pledges of a list of sponsors: where an account occurs twice, its last pledge
/// stands.
pub open spec fn sponsors_map(s: Seq<(AccountHash, U256)>) -> Map<(u128, u128), U256>
    decreases s.len(),
{
    if s.len() == 0 {
        Map::empty()
    } else {
        sponsors_map(s.drop_last()).insert(s.last().0.spec_key(), s.last().1)
    }
}

/// The rules of a vote, read from their flat form.
pub open spec fn vote_configuration_of(c: VoteConfigurationSerialized) -> VoteConfiguration {
    VoteConfiguration {
        member_quorum: c.0.0,
        reputation_quorum: c.0.1,
        threshold: c.1.0,
        timeout: c.1.1,
        voter_staking_limits: c.1.2,
    }
}

/// Why a grant proposal with these inputs is refused, if it is. The checks are made in
/// this order: policing ratio, category, stake, cost, progress percentages.
pub open spec fn grant_refusal(
    category: u8,
    ratios: Seq<u8>,
    milestones: Seq<MilestoneInput>,
    staked_rep: U256,
    system_policing_ratio: u8,
    reputation_balance: U256,
    cost: U256,
) -> Option<ProposalError> {
    if ratios[0] < system_policing_ratio || ratios[0] > 100 {
        Some(ProposalError::InvalidPolicingRatio)
    } else if category > 1 {
        Some(ProposalError::InvalidCategory)
    } else if staked_rep@ > reputation_balance@ {
        Some(ProposalError::StakedRepGreaterThanReputationBalance)
    } else if milestones_sum(milestones) != cost@ {
        Some(ProposalError::ProjectCostNotEqualToMilestonesSum)
    } else if progress_sum(milestones) != 100 {
        Some(ProposalError::InvalidMilestonesProgressPercentages)
    } else {
        None
    }
}

/// Whether the keys are the indices below `n`.
pub open spec fn is_indexed(keys: Set<u64>, n: nat) -> bool {
    forall|k: u64| keys.contains(k) <==> (k as nat) < n
}

/// The sum of the amounts of the tranches under the indices below `n`.
pub open spec fn tranches_total(tranches: Map<u64, FundingTranche>, n: nat) -> nat
    decreases n,
{
    if n == 0 {
        0
    } else {
        tranches_total(tranches, (n - 1) as nat) + tranches[(n - 1) as u64].amount@
    }
}

/// The sum of the amounts of all tranches of the milestones under the indices below `n`.
pub open spec fn milestones_total(milestones: Map<u64, MilestoneView>, n: nat) -> nat
    decreases n,
{
    if n == 0 {
        0
    } else {
        let last = milestones[(n - 1) as u64];
        milestones_total(milestones, (n - 1) as nat) + tranches_total(
            last.funding_tranches,
            last.funding_tranches_size as nat,
        )
    }
}

/// The sum of the progress percentages of the milestones under the indices below `n`.
pub open spec fn progress_total(milestones: Map<u64, MilestoneView>, n: nat) -> nat
    decreases n,
{
    if n == 0 {
        0
    } else {
        progress_total(milestones, (n - 1) as nat) + milestones[(n
            - 1) as u64].progress_percentage as nat
    }
}

impl ProposalView {
    /// What holds of every grant proposal of `n` milestones that was built under a
    /// policing ratio of `system_policing_ratio`: its policing ratio lies between that
    /// ratio and 100; its milestones stand under the indices below `n` and the tranches
    /// of each under the indices below its count of tranches; all tranches add up to the
    /// cost, and the progress percentages add up to 100.
    pub open spec fn is_sound(self, n: nat, system_policing_ratio: u8) -> bool {
        &&& system_policing_ratio <= self.ratios.policing_ratio <= 100
        &&& is_indexed(self.milestones.dom(), n)
        &&& forall|k: u64| #[trigger]
            self.milestones.contains_key(k) ==> is_indexed(
                self.milestones[k].funding_tranches.dom(),
                self.milestones[k].funding_tranches_size as nat,
            )
        &&& milestones_total(self.milestones, n) == self.cost@
        &&& progress_total(self.milestones, n) == 100
    }
}

/// The tranches of a list, taken by index, add up as the list does.
proof fn lemma_tranches_total(ts: Seq<TrancheInput>, n: nat)
    requires
        n <= ts.len() <= u64::MAX,
    ensures
        tranches_total(tranches_map(ts), n) == tranches_sum(ts.take(n as int)),
    decreases n,
{
    if n > 0 {
        lemma_tranches_total(ts, (n - 1) as nat);
        lemma_tranches_sum_step(ts, n - 1);
    }
}

/// The milestones of a list, taken by index, add up as the list does.
proof fn lemma_milestones_total(ms: Seq<MilestoneInput>, n: nat)
    requires
        n <= ms.len() <= u64::MAX,
        forall|i: int| 0 <= i < ms.len() ==> (#[trigger] ms[i]).0.2@.len() <= u64::MAX,
    ensures
        milestones_total(milestones_map(ms), n) == milestones_sum(ms.take(n as int)),
        progress_total(milestones_map(ms), n) == progress_sum(ms.take(n as int)),
    decreases n,
{
    if n > 0 {
        lemma_milestones_total(ms, (n - 1) as nat);
        lemma_milestones_sum_step(ms, n - 1);
        let ts = ms[n - 1].0.2@;
        lemma_tranches_total(ts, ts.len());
        assert(ts.take(ts.len() as int) =~= ts);
    }
}

/// A proposal that passes every check is sound.
pub proof fn lemma_new_is_sound(
    name: Seq<char>,
    storage_pointer: Seq<char>,
    storage_fingerprint: Seq<char>,
    category: u8,
    citations: Seq<u64>,
    ratios: Seq<u8>,
    vote_configuration: VoteConfigurationSerialized,
    milestones: Seq<MilestoneInput>,
    staked_rep: U256,
    proposer: AccountHash,
    system_policing_ratio: u8,
    reputation_balance: U256,
    sponsors: Seq<(AccountHash, U256)>,
    cost: U256,
)
    requires
        milestones.len() <= u64::MAX,
        forall|i: int| 0 <= i < milestones.len() ==> (#[trigger] milestones[i]).0.2@.len()
            <= u64::MAX,
        grant_refusal(
            category,
            ratios,
            milestones,
            staked_rep,
            system_policing_ratio,
            reputation_balance,
            cost,
        ) is None,
    ensures
        Proposal::spec_new(
            name,
            storage_pointer,
            storage_fingerprint,
            citations,
            ratios,
            vote_configuration,
            milestones,
            proposer,
            sponsors,
            cost,
        ).is_sound(milestones.len(), system_policing_ratio),
{
    lemma_milestones_total(milestones, milestones.len());
    assert(milestones.take(milestones.len() as int) =~= milestones);
}

/// Once ratio, category and stake have passed, a proposal is refused for its cost
/// exactly where the tranches of all milestones do not add up to the cost, and, where
/// they do, for its progress exactly where the percentages do not add up to 100.
pub proof fn lemma_sums_decide(
    category: u8,
    ratios: Seq<u8>,
    milestones: Seq<MilestoneInput>,
    staked_rep: U256,
    system_policing_ratio: u8,
    reputation_balance: U256,
    cost: U256,
)
    requires
        system_policing_ratio <= ratios[0] <= 100,
        category <= 1,
        staked_rep@ <= reputation_balance@,
    ensures
        grant_refusal(
            category,
            ratios,
            milestones,
            staked_rep,
            system_policing_ratio,
            reputation_balance,
            cost,
        ) == Some(ProposalError::ProjectCostNotEqualToMilestonesSum) <==> milestones_sum(
            milestones,
        ) != cost@,
        milestones_sum(milestones) == cost@ ==> (grant_refusal(
            category,
            ratios,
            milestones,
            staked_rep,
            system_policing_ratio,
            reputation_balance,
            cost,
        ) == Some(ProposalError::InvalidMilestonesProgressPercentages) <==> progress_sum(
            milestones,
        ) != 100),
        grant_refusal(
            category,
            ratios,
            milestones,
            staked_rep,
            system_policing_ratio,
            reputation_balance,
            cost,
        ) is None <==> milestones_sum(milestones) == cost@ && progress_sum(milestones) == 100,
{
}

/// A step of `tranches_sum`: the sum over the first `i + 1` tranches.
proof fn lemma_tranches_sum_step(ts: Seq<TrancheInput>, i: int)
    requires
        0 <= i < ts.len(),
    ensures
        tranches_sum(ts.take(i + 1)) == tranches_sum(ts.take(i)) + ts[i].1@,
{
    assert(ts.take(i + 1).drop_last() =~= ts.take(i));
}

/// A step of `milestones_sum` and of `progress_sum`: the sums over the first `i + 1`
/// milestones.
proof fn lemma_milestones_sum_step(ms: Seq<MilestoneInput>, i: int)
    requires
        0 <= i < ms.len(),
    ensures
        milestones_sum(ms.take(i + 1)) == milestones_sum(ms.take(i)) + tranches_sum(ms[i].0.2@),
        progress_sum(ms.take(i + 1)) == progress_sum(ms.take(i)) + ms[i].0.1 as nat,
{
    assert(ms.take(i + 1).drop_last() =~= ms.take(i));
}

/// A step of `sponsors_map`: the pledges of the first `i + 1` sponsors.
proof fn lemma_sponsors_map_step(s: Seq<(AccountHash, U256)>, i: int)
    requires
        0 <= i < s.len(),
    ensures
        sponsors_map(s.take(i + 1)) == sponsors_map(s.take(i)).insert(s[i].0.spec_key(), s[i].1),
{
    assert(s.take(i + 1).drop_last() =~= s.take(i));
}

/// The map of the pledges of a list of sponsors.
pub fn sponsors_mapping(sponsors: &Vec<(AccountHash, U256)>) -> (r: BTreeMap<(u128, u128), U256>)
    ensures
        r@ == sponsors_map(sponsors@),
{
    let mut mapping: BTreeMap<(u128, u128), U256> = BTreeMap::new();
    let mut i: usize = 0;
    while i < sponsors.len()
        invariant
            i <= sponsors.len(),
            mapping@ == sponsors_map(sponsors@.take(i as int)),
        decreases sponsors.len() - i,
    {
        proof {
            lemma_sponsors_map_step(sponsors@, i as int);
        }
        mapping.insert(sponsors[i].0.key(), sponsors[i].1);
        i += 1;
    }
    assert(sponsors@.take(i as int) =~= sponsors@);
    mapping
}

impl Proposal {
    /// The proposal that `new` builds from inputs that pass every check.
    pub open spec fn spec_new(
        name: Seq<char>,
        storage_pointer: Seq<char>,
        storage_fingerprint: Seq<char>,
        citations: Seq<u64>,
        ratios: Seq<u8>,
        vote_configuration: VoteConfigurationSerialized,
        milestones: Seq<MilestoneInput>,
        proposer: AccountHash,
        sponsors: Seq<(AccountHash, U256)>,
        cost: U256,
    ) -> ProposalView {
        ProposalView {
            name,
            storage_pointer,
            storage_fingerprint,
            proposal_type: ProposalType::Grant,
            proposer,
            citations,
            ratios: Ratios {
                policing_ratio: ratios[0],
                op_ratio: ratios[1],
                citation_ratio: ratios[2],
            },
            vote_configuration: vote_configuration_of(vote_configuration),
            milestones: milestones_map(milestones),
            proposal_status: ProposalStatus::InFullVote,
            sponsors: sponsors_map(sponsors),
            cost,
        }
    }

    /// Builds a grant proposal and opens it for voting.
    ///
    /// `ratios` holds the policing, OP and citation ratios in this order. The proposal
    /// is refused, in this order, where the policing ratio is below the system's or above
    /// 100, where the category is above 1, where the proposer stakes more than the
    /// proposer's balance, where the tranches of all milestones do not add up to `cost`,
    /// and where the progress percentages do not add up to 100.
    pub fn new(
        name: String,
        storage_pointer: String,
        storage_fingerprint: String,
        category: u8,
        citations: Vec<u64>,
        ratios: Vec<u8>,
        vote_configuration: VoteConfigurationSerialized,
        milestones: Vec<MilestoneInput>,
        staked_rep: U256,
        proposer: AccountHash,
        system_policing_ratio: u8,
        reputation_balance: U256,
        sponsors: Vec<(AccountHash, U256)>,
        cost: U256,
    ) -> (r: Result<Proposal, ProposalError>)
        requires
            ratios@.len() >= 3,
        ensures
            match r {
                Ok(p) => grant_refusal(
                    category,
                    ratios@,
                    milestones@,
                    staked_rep,
                    system_policing_ratio,
                    reputation_balance,
                    cost,
                ) is None && p@ == Proposal::spec_new(
                    name@,
                    storage_pointer@,
                    storage_fingerprint@,
                    citations@,
                    ratios@,
                    vote_configuration,
                    milestones@,
                    proposer,
                    sponsors@,
                    cost,
                ) && p@.is_sound(milestones@.len(), system_policing_ratio),
                Err(e) => grant_refusal(
                    category,
                    ratios@,
                    milestones@,
                    staked_rep,
                    system_policing_ratio,
                    reputation_balance,
                    cost,
                ) == Some(e),
            },
    {
        let proposal_policing_ratio: u8 = ratios[0];
        if proposal_policing_ratio < system_policing_ratio || proposal_policing_ratio > 100 {
            return Err(ProposalError::InvalidPolicingRatio);
        }
        if category > 1 {
            return Err(ProposalError::InvalidCategory);
        }
        if staked_rep.gt(&reputation_balance) {
            return Err(ProposalError::StakedRepGreaterThanReputationBalance);
        }
        let mut mstones: BTreeMap<u64, Milestone> = BTreeMap::new();
        // The sum of all tranches so far, or `None` once it has left the range of an
        // amount: it can no longer equal the cost then.
        let mut milestones_sum_so_far: Option<U256> = Some(U256::zero());
        let mut progress_percentages_sum: u128 = 0;
        let mut i: usize = 0;
        while i < milestones.len()
            invariant
                i <= milestones.len(),
                milestones_view(mstones@) =~= milestones_map(milestones@.take(i as int)),
                match milestones_sum_so_far {
                    Some(s) => s@ == milestones_sum(milestones@.take(i as int)),
                    None => milestones_sum(milestones@.take(i as int)) > u256_max(),
                },
                progress_percentages_sum == progress_sum(milestones@.take(i as int)),
                progress_percentages_sum <= 255 * i,
            decreases milestones.len() - i,
        {
            let mstone = &milestones[i];
            proof {
                lemma_milestones_sum_step(milestones@, i as int);
            }
            progress_percentages_sum = progress_percentages_sum + mstone.0.1 as u128;
            let (funding_tranches, milestone_amount) = Self::create_funding_tranches_mapping(
                &mstone.0.2,
            );
            milestones_sum_so_far = match (milestones_sum_so_far, milestone_amount) {
                (Some(total), Some(amount)) => total.checked_add(&amount),
                _ => None,
            };
            let milestone = Milestone {
                progress_percentage: mstone.0.1,
                funding_tranches,
                funding_tranches_size: mstone.0.2.len() as u64,
                milestone_type: mstone.0.0,
                result: 2,
                timeout: mstone.1,
            };
            let ghost before = mstones@;
            let ghost added = milestone@;
            assert(added =~= milestone_of(milestones@[i as int]));
            mstones.insert(i as u64, milestone);
            proof {
                let after = milestones@.take(i + 1);
                assert(milestones_view(mstones@) =~= milestones_view(before).insert(
                    i as u64,
                    added,
                ));
                assert forall|k: u64| (k as int) < i + 1 implies #[trigger] milestones_map(
                    after,
                )[k] == milestones_view(mstones@)[k] by {
                    if (k as int) < i {
                        assert(milestones@.take(i as int)[k as int] == after[k as int]);
                    }
                }
            }
            i += 1;
        }
        proof {
            assert(milestones@.take(i as int) =~= milestones@);
            cost.lemma_bounded();
        }
        let sum_is_cost = match milestones_sum_so_far {
            Some(s) => s.same(&cost),
            None => false,
        };
        if !sum_is_cost {
            return Err(ProposalError::ProjectCostNotEqualToMilestonesSum);
        }
        if progress_percentages_sum != 100 {
            return Err(ProposalError::InvalidMilestonesProgressPercentages);
        }
        proof {
            assert forall|i: int| 0 <= i < milestones@.len() implies (#[trigger] milestones@[i]).0.2@.len()
                <= u64::MAX by {
                assert(milestones@[i].0.2.len() == milestones@[i].0.2@.len());
            }
            lemma_new_is_sound(
                name@,
                storage_pointer@,
                storage_fingerprint@,
                category,
                citations@,
                ratios@,
                vote_configuration,
                milestones@,
                staked_rep,
                proposer,
                system_policing_ratio,
                reputation_balance,
                sponsors@,
                cost,
            );
        }
        let sponsors_mapping = sponsors_mapping(&sponsors);
        let proposal = Proposal {
            name,
            storage_fingerprint,
            storage_pointer,
            vote_configuration: VoteConfiguration {
                member_quorum: vote_configuration.0.0,
                reputation_quorum: vote_configuration.0.1,
                voter_staking_limits: vote_configuration.1.2,
                timeout: vote_configuration.1.1,
                threshold: vote_configuration.1.0,
            },
            proposal_type: ProposalType::Grant,
            proposer,
            citations,
            milestones: mstones,
            ratios: Ratios { policing_ratio: ratios[0], op_ratio: ratios[1], citation_ratio: ratios[2] },
            proposal_status: ProposalStatus::InFullVote,
            sponsors: sponsors_mapping,
            cost,
        };
        Ok(proposal)
    }

    /// The tranches of one milestone under their positions, and the sum of their amounts
    /// (`None` where the sum does not fit in an amount).
    pub fn create_funding_tranches_mapping(user_funding_tranches: &Vec<TrancheInput>) -> (r: (
        BTreeMap<u64, FundingTranche>,
        Option<U256>,
    ))
        ensures
            r.0@ =~= tranches_map(user_funding_tranches@),
            match r.1 {
                Some(s) => s@ == tranches_sum(user_funding_tranches@),
                None => tranches_sum(user_funding_tranches@) > u256_max(),
            },
    {
        let mut ftranches: BTreeMap<u64, FundingTranche> = BTreeMap::new();
        let mut sum: Option<U256> = Some(U256::zero());
        let mut j: usize = 0;
        while j < user_funding_tranches.len()
            invariant
                j <= user_funding_tranches.len(),
                ftranches@ =~= tranches_map(user_funding_tranches@.take(j as int)),
                match sum {
                    Some(s) => s@ == tranches_sum(user_funding_tranches@.take(j as int)),
                    None => tranches_sum(user_funding_tranches@.take(j as int)) > u256_max(),
                },
            decreases user_funding_tranches.len() - j,
        {
            let funding_tranche = &user_funding_tranches[j];
            proof {
                lemma_tranches_sum_step(user_funding_tranches@, j as int);
            }
            sum = match sum {
                Some(s) => s.checked_add(&funding_tranche.1),
                None => None,
            };
            ftranches.insert(
                j as u64,
                FundingTranche {
                    amount: funding_tranche.1,
                    funding_tranche_type: funding_tranche.0,
                    reputation_allocation: funding_tranche.2,
                },
            );
            j += 1;
        }
        assert(user_funding_tranches@.take(j as int) =~= user_funding_tranches@);
        (ftranches, sum)
    }
}

/// The flat form of a tranche.
pub open spec fn tranche_tuple(t: FundingTranche) -> FundingTrancheSerialized {
    (t.funding_tranche_type, t.amount, t.reputation_allocation)
}

/// The flat form of a vote configuration.
pub open spec fn vote_configuration_tuple(c: VoteConfiguration) -> VoteConfigurationSerialized {
    ((c.member_quorum, c.reputation_quorum), (c.threshold, c.timeout, c.voter_staking_limits))
}

/// Whether `s` is the flat form of the milestone `m`: every field in its place, every
/// tranche under its index.
pub open spec fn milestone_is_serialized(m: MilestoneView, s: MilestoneSerialized) -> bool {
    &&& s.0 == (m.milestone_type, m.progress_percentage, m.result)
    &&& s.1.0@ == m.funding_tranches.map_values(|t: FundingTranche| tranche_tuple(t))
    &&& s.1.1 == m.funding_tranches_size
    &&& s.1.2 == m.timeout
}

/// The milestone that a flat form holds.
pub open spec fn milestone_deserialized(s: MilestoneSerialized) -> MilestoneView {
    MilestoneView {
        milestone_type: s.0.0,
        progress_percentage: s.0.1,
        result: s.0.2,
        funding_tranches: s.1.0@.map_values(|t: FundingTrancheSerialized| tranche_of(t)),
        funding_tranches_size: s.1.1,
        timeout: s.1.2,
    }
}

/// Whether `s` holds the flat form of every milestone of `ms` under its index, and
/// nothing else.
pub open spec fn milestones_are_serialized(
    ms: Map<u64, MilestoneView>,
    s: Map<u64, MilestoneSerialized>,
) -> bool {
    &&& s.dom() == ms.dom()
    &&& forall|k: u64| #[trigger] ms.contains_key(k) ==> milestone_is_serialized(ms[k], s[k])
}

/// The milestones that a map of flat forms holds.
pub open spec fn milestones_deserialized(s: Map<u64, MilestoneSerialized>) -> Map<
    u64,
    MilestoneView,
> {
    s.map_values(|m: MilestoneSerialized| milestone_deserialized(m))
}

/// Reading the flat form of a milestone gives the milestone back.
pub proof fn lemma_milestone_round_trip(m: MilestoneView, s: MilestoneSerialized)
    requires
        milestone_is_serialized(m, s),
    ensures
        milestone_deserialized(s) == m,
{
    assert(milestone_deserialized(s).funding_tranches =~= m.funding_tranches);
    assert(milestone_deserialized(s) =~= m);
}

impl Milestone {
    /// Whether the two milestones are the same: every field and every tranche agree.
    pub fn same(&self, other: &Milestone) -> (r: bool)
        ensures
            r == (self@ == other@),
    {
        if self.milestone_type != other.milestone_type || self.progress_percentage
            != other.progress_percentage || self.result != other.result
            || self.funding_tranches_size != other.funding_tranches_size || self.timeout
            != other.timeout {
            return false;
        }
        if self.funding_tranches.len() != other.funding_tranches.len() {
            return false;
        }
        let ghost mut checked: Set<u64> = Set::empty();
        for entry in it: self.funding_tranches.iter()
            invariant
                it.seq() == self.funding_tranches.iter().remaining(),
                forall|k: u64| #[trigger]
                    checked.contains(k) <==> exists|j: int|
                        0 <= j < it.index() && *(#[trigger] it.seq()[j]).0 == k,
                forall|k: u64| #[trigger]
                    checked.contains(k) ==> self.funding_tranches@.contains_key(k)
                        && other.funding_tranches@.contains_key(k) && other.funding_tranches@[k]
                        == self.funding_tranches@[k],
        {
            let (key, tranche) = entry;
            assert(entry == it.seq()[it.index() as int]);
            let agrees = match other.funding_tranches.get(key) {
                Some(found) => found.funding_tranche_type == tranche.funding_tranche_type
                    && found.amount.same(&tranche.amount) && found.reputation_allocation.same(
                    &tranche.reputation_allocation,
                ),
                None => false,
            };
            if !agrees {
                assert(self.funding_tranches@.contains_key(*key));
                assert(self@.funding_tranches != other@.funding_tranches);
                return false;
            }
            proof {
                checked = checked.insert(*key);
            }
        }
        proof {
            let mine = self.funding_tranches@;
            let theirs = other.funding_tranches@;
            assert(checked =~= mine.dom());
            assert(mine.dom().subset_of(theirs.dom()));
            vstd::set_lib::lemma_subset_equality(mine.dom(), theirs.dom());
            assert(mine =~= theirs);
            assert(self@ =~= other@);
        }
        true
    }

    /// The flat form of the milestone.
    pub fn serialize(&self) -> (r: MilestoneSerialized)
        ensures
            milestone_is_serialized(self@, r),
    {
        (
            (self.milestone_type, self.progress_percentage, self.result),
            (
                Proposal::serialize_funding_tranches(&self.funding_tranches),
                self.funding_tranches_size,
                self.timeout,
            ),
        )
    }

    /// The milestone that a flat form holds.
    pub fn deserialize(s: &MilestoneSerialized) -> (r: Milestone)
        ensures
            r@ == milestone_deserialized(*s),
    {
        let r = Milestone {
            milestone_type: s.0.0,
            progress_percentage: s.0.1,
            result: s.0.2,
            funding_tranches: Proposal::deserialize_funding_tranches(&s.1.0),
            funding_tranches_size: s.1.1,
            timeout: s.1.2,
        };
        assert(r@ =~= milestone_deserialized(*s));
        r
    }
}

impl Proposal {
    /// Whether `s` is the flat form of the proposal `v`: every field in its place, type
    /// and status as their codes, the ratios in the order policing, OP, citation.
    pub open spec fn is_serialized(v: ProposalView, s: ProposalSerialized) -> bool {
        &&& s.0.0.0@ == v.name
        &&& s.0.0.1@ == v.storage_pointer
        &&& s.0.0.2@ == v.storage_fingerprint
        &&& s.0.1.0 == v.proposal_type.spec_code()
        &&& s.0.1.1 == v.proposer.spec_key()
        &&& s.0.1.2@ == v.citations
        &&& s.0.2.0@ == seq![v.ratios.policing_ratio, v.ratios.op_ratio, v.ratios.citation_ratio]
        &&& s.0.2.1 == vote_configuration_tuple(v.vote_configuration)
        &&& milestones_are_serialized(v.milestones, s.0.2.2@)
        &&& s.1.0 == v.proposal_status.spec_code()
        &&& s.1.1@ == v.sponsors
        &&& s.1.2 == v.cost
    }

    /// The proposal that a flat form holds.
    pub open spec fn spec_deserialize(s: ProposalSerialized) -> ProposalView {
        ProposalView {
            name: s.0.0.0@,
            storage_pointer: s.0.0.1@,
            storage_fingerprint: s.0.0.2@,
            proposal_type: ProposalType::spec_from_code(s.0.1.0),
            proposer: AccountHash::spec_from_key(s.0.1.1),
            citations: s.0.1.2@,
            ratios: Ratios {
                policing_ratio: s.0.2.0@[0],
                op_ratio: s.0.2.0@[1],
                citation_ratio: s.0.2.0@[2],
            },
            vote_configuration: vote_configuration_of(s.0.2.1),
            milestones: milestones_deserialized(s.0.2.2@),
            proposal_status: ProposalStatus::spec_from_code(s.1.0),
            sponsors: s.1.1@,
            cost: s.1.2,
        }
    }

    /// Reading the flat form of a proposal gives the proposal back.
    pub proof fn lemma_round_trip(v: ProposalView, s: ProposalSerialized)
        requires
            Proposal::is_serialized(v, s),
        ensures
            Proposal::spec_deserialize(s) == v,
    {
        let d = Proposal::spec_deserialize(s);
        assert(d.milestones =~= v.milestones) by {
            assert forall|k: u64| v.milestones.contains_key(k) implies d.milestones[k]
                == v.milestones[k] by {
                lemma_milestone_round_trip(v.milestones[k], s.0.2.2@[k]);
            }
        }
        assert(d =~= v);
    }

    /// The flat form of the proposal.
    pub fn serialize(&self) -> (r: ProposalSerialized)
        ensures
            Proposal::is_serialized(self@, r),
    {
        (
            (
                (self.name.clone(), self.storage_pointer.clone(), self.storage_fingerprint.clone()),
                (self.proposal_type.code(), self.proposer.key(), self.citations.clone()),
                (
                    self.serialize_ratios(),
                    self.serialize_vote_configuration(),
                    self.serialize_milestones(),
                ),
            ),
            (self.proposal_status.code(), self.serialize_sponsors(), self.cost),
        )
    }

    /// The ratios in the order policing, OP, citation.
    pub fn serialize_ratios(&self) -> (r: RatiosSerialized)
        ensures
            r@ == seq![
                self.ratios.policing_ratio,
                self.ratios.op_ratio,
                self.ratios.citation_ratio,
            ],
    {
        let r = [self.ratios.policing_ratio, self.ratios.op_ratio, self.ratios.citation_ratio];
        assert(r@ =~= seq![
            self.ratios.policing_ratio,
            self.ratios.op_ratio,
            self.ratios.citation_ratio,
        ]);
        r
    }

    /// The flat form of the vote configuration.
    pub fn serialize_vote_configuration(&self) -> (r: VoteConfigurationSerialized)
        ensures
            r == vote_configuration_tuple(self.vote_configuration),
    {
        (
            (self.vote_configuration.member_quorum, self.vote_configuration.reputation_quorum),
            (
                self.vote_configuration.threshold,
                self.vote_configuration.timeout,
                self.vote_configuration.voter_staking_limits,
            ),
        )
    }

    /// The flat form of every milestone, under its index.
    pub fn serialize_milestones(&self) -> (r: MilestonesSerialized)
        ensures
            milestones_are_serialized(self@.milestones, r@),
    {
        let mut serialized_milestones: MilestonesSerialized = BTreeMap::new();
        for entry in it: self.milestones.iter()
            invariant
                it.seq() == self.milestones.iter().remaining(),
                forall|k: u64| #[trigger]
                    serialized_milestones@.contains_key(k) <==> exists|j: int|
                        0 <= j < it.index() && *(#[trigger] it.seq()[j]).0 == k,
                forall|k: u64| #[trigger]
                    serialized_milestones@.contains_key(k) ==> self.milestones@.contains_key(k)
                        && milestone_is_serialized(
                        self.milestones@[k]@,
                        serialized_milestones@[k],
                    ),
        {
            let (key, milestone) = entry;
            assert(entry == it.seq()[it.index() as int]);
            serialized_milestones.insert(*key, milestone.serialize());
        }
        assert(serialized_milestones@.dom() =~= self@.milestones.dom());
        serialized_milestones
    }

    /// The flat form of every tranche, under its index.
    pub fn serialize_funding_tranches(funding_tranches: &BTreeMap<u64, FundingTranche>) -> (r:
        BTreeMap<u64, FundingTrancheSerialized>)
        ensures
            r@ == funding_tranches@.map_values(|t: FundingTranche| tranche_tuple(t)),
    {
        let mut output: BTreeMap<u64, FundingTrancheSerialized> = BTreeMap::new();
        for entry in it: funding_tranches.iter()
            invariant
                it.seq() == funding_tranches.iter().remaining(),
                forall|k: u64| #[trigger]
                    output@.contains_key(k) <==> exists|j: int|
                        0 <= j < it.index() && *(#[trigger] it.seq()[j]).0 == k,
                forall|k: u64| #[trigger]
                    output@.contains_key(k) ==> funding_tranches@.contains_key(k) && output@[k]
                        == tranche_tuple(funding_tranches@[k]),
        {
            let (key, tranche) = entry;
            assert(entry == it.seq()[it.index() as int]);
            output.insert(
                *key,
                (tranche.funding_tranche_type, tranche.amount, tranche.reputation_allocation),
            );
        }
        assert(output@ =~= funding_tranches@.map_values(|t: FundingTranche| tranche_tuple(t)));
        output
    }

    /// The pledges of the sponsors, by the key of the sponsor's account.
    pub fn serialize_sponsors(&self) -> (r: SponsorsSerialized)
        ensures
            r@ == self.sponsors@,
    {
        self.sponsors.clone()
    }

    /// The proposal that a flat form holds. A type code that names no type reads as a
    /// grant, a status code that names no status as waiting for the vote.
    pub fn deserialize(serialized_proposal: ProposalSerialized) -> (r: Proposal)
        ensures
            r@ == Proposal::spec_deserialize(serialized_proposal),
    {
        let milestones = Self::deserialize_milestones(&serialized_proposal.0.2.2);
        let sponsors = Self::deserialize_sponsors(&serialized_proposal.1.1);
        let r = Proposal {
            name: serialized_proposal.0.0.0.clone(),
            storage_pointer: serialized_proposal.0.0.1.clone(),
            storage_fingerprint: serialized_proposal.0.0.2.clone(),
            proposal_type: ProposalType::from_code(serialized_proposal.0.1.0),
            proposer: AccountHash::from_key(serialized_proposal.0.1.1),
            citations: serialized_proposal.0.1.2.clone(),
            ratios: Ratios {
                policing_ratio: serialized_proposal.0.2.0[0],
                op_ratio: serialized_proposal.0.2.0[1],
                citation_ratio: serialized_proposal.0.2.0[2],
            },
            vote_configuration: VoteConfiguration {
                member_quorum: serialized_proposal.0.2.1.0.0,
                reputation_quorum: serialized_proposal.0.2.1.0.1,
                threshold: serialized_proposal.0.2.1.1.0,
                timeout: serialized_proposal.0.2.1.1.1,
                voter_staking_limits: serialized_proposal.0.2.1.1.2,
            },
            milestones,
            proposal_status: ProposalStatus::from_code(serialized_proposal.1.0),
            sponsors,
            cost: serialized_proposal.1.2,
        };
        assert(r@ =~= Proposal::spec_deserialize(serialized_proposal));
        r
    }

    /// The milestones that a map of flat forms holds.
    pub fn deserialize_milestones(serialized_milestones: &MilestonesSerialized) -> (r: BTreeMap<
        u64,
        Milestone,
    >)
        ensures
            milestones_view(r@) == milestones_deserialized(serialized_milestones@),
    {
        let mut deserialized_milestones: BTreeMap<u64, Milestone> = BTreeMap::new();
        for entry in it: serialized_milestones.iter()
            invariant
                it.seq() == serialized_milestones.iter().remaining(),
                forall|k: u64| #[trigger]
                    deserialized_milestones@.contains_key(k) <==> exists|j: int|
                        0 <= j < it.index() && *(#[trigger] it.seq()[j]).0 == k,
                forall|k: u64| #[trigger]
                    deserialized_milestones@.contains_key(k)
                        ==> serialized_milestones@.contains_key(k)
                        && deserialized_milestones@[k]@ == milestone_deserialized(
                        serialized_milestones@[k],
                    ),
        {
            let (key, milestone) = entry;
            assert(entry == it.seq()[it.index() as int]);
            deserialized_milestones.insert(*key, Milestone::deserialize(milestone));
        }
        assert(milestones_view(deserialized_milestones@) =~= milestones_deserialized(
            serialized_milestones@,
        ));
        deserialized_milestones
    }

    /// The tranches that a map of flat forms holds.
    pub fn deserialize_funding_tranches(
        serialized_funding_tranches: &BTreeMap<u64, FundingTrancheSerialized>,
    ) -> (r: BTreeMap<u64, FundingTranche>)
        ensures
            r@ == serialized_funding_tranches@.map_values(
                |t: FundingTrancheSerialized| tranche_of(t),
            ),
    {
        let mut deserialized_tranches: BTreeMap<u64, FundingTranche> = BTreeMap::new();
        for entry in it: serialized_funding_tranches.iter()
            invariant
                it.seq() == serialized_funding_tranches.iter().remaining(),
                forall|k: u64| #[trigger]
                    deserialized_tranches@.contains_key(k) <==> exists|j: int|
                        0 <= j < it.index() && *(#[trigger] it.seq()[j]).0 == k,
                forall|k: u64| #[trigger]
                    deserialized_tranches@.contains_key(k)
                        ==> serialized_funding_tranches@.contains_key(k)
                        && deserialized_tranches@[k] == tranche_of(serialized_funding_tranches@[k]),
        {
            let (key, tranche) = entry;
            assert(entry == it.seq()[it.index() as int]);
            deserialized_tranches.insert(
                *key,
                FundingTranche {
                    funding_tranche_type: tranche.0,
                    amount: tranche.1,
                    reputation_allocation: tranche.2,
                },
            );
        }
        assert(deserialized_tranches@ =~= serialized_funding_tranches@.map_values(
            |t: FundingTrancheSerialized| tranche_of(t),
        ));
        deserialized_tranches
    }

    /// The pledges that a map of flat forms holds.
    pub fn deserialize_sponsors(serialized_sponsors: &SponsorsSerialized) -> (r: BTreeMap<
        (u128, u128),
        U256,
    >)
        ensures
            r@ == serialized_sponsors@,
    {
        serialized_sponsors.clone()
    }
}


/// A request to change one parameter of the organisation.
#[derive(Debug, PartialEq, Eq)]
pub struct GovernanceProposal {
    pub name: String,
    pub repository_url: String,
    pub proposer: AccountHash,
    /// The pledged amount of each sponsor, by the key of the sponsor's account.
    pub sponsors: BTreeMap<(u128, u128), U256>,
    pub proposal_type: ProposalType,
    pub vote_configuration: GovernanceVoteConfiguration,
    pub proposal_status: ProposalStatus,
    /// The name of the parameter and the value it is to take.
    pub new_variable_key_value: (String, String),
}

/// A governance proposal as a mathematical value.
#[verifier::ext_equal]
pub struct GovernanceProposalView {
    pub name: Seq<char>,
    pub repository_url: Seq<char>,
    pub proposer: AccountHash,
    pub sponsors: Map<(u128, u128), U256>,
    pub proposal_type: ProposalType,
    pub vote_configuration: GovernanceVoteConfigurationView,
    pub proposal_status: ProposalStatus,
    pub new_variable_key_value: (Seq<char>, Seq<char>),
}

impl View for GovernanceProposal {
    type V = GovernanceProposalView;

    open spec fn view(&self) -> GovernanceProposalView {
        GovernanceProposalView {
            name: self.name@,
            repository_url: self.repository_url@,
            proposer: self.proposer,
            sponsors: self.sponsors@,
            proposal_type: self.proposal_type,
            vote_configuration: self.vote_configuration@,
            proposal_status: self.proposal_status,
            new_variable_key_value: (
                self.new_variable_key_value.0@,
                self.new_variable_key_value.1@,
            ),
        }
    }
}

/// The rules of a governance vote, read from their flat form.
pub open spec fn governance_vote_configuration_of(
    c: GovernanceVoteConfigurationSerialized,
) -> GovernanceVoteConfigurationView {
    GovernanceVoteConfigurationView {
        transition_vote_quorum: c.0.0,
        transition_vote_threshold: c.0.1,
        proposal_repository_address: c.0.2@,
        full_vote_quorum: c.1.0,
        full_vote_threshold: c.1.1,
        timeout: c.1.2,
    }
}

/// Whether `s` is the flat form of the rules `c`.
pub open spec fn governance_vote_configuration_is_serialized(
    c: GovernanceVoteConfigurationView,
    s: GovernanceVoteConfigurationSerialized,
) -> bool {
    &&& s.0.0 == c.transition_vote_quorum
    &&& s.0.1 == c.transition_vote_threshold
    &&& s.0.2@ == c.proposal_repository_address
    &&& s.1 == (c.full_vote_quorum, c.full_vote_threshold, c.timeout)
}

impl Clone for Proposal {
    fn clone(&self) -> (r: Self)
        ensures
            r@ == self@,
    {
        let r = Proposal {
            name: self.name.clone(),
            storage_pointer: self.storage_pointer.clone(),
            storage_fingerprint: self.storage_fingerprint.clone(),
            proposal_type: self.proposal_type,
            proposer: self.proposer,
            citations: self.citations.clone(),
            ratios: self.ratios,
            vote_configuration: self.vote_configuration,
            milestones: Proposal::clone_milestones(&self.milestones),
            proposal_status: self.proposal_status,
            sponsors: self.sponsors.clone(),
            cost: self.cost,
        };
        assert(r@ =~= self@);
        r
    }
}

impl Clone for GovernanceProposal {
    fn clone(&self) -> (r: Self)
        ensures
            r@ == self@,
    {
        GovernanceProposal {
            name: self.name.clone(),
            repository_url: self.repository_url.clone(),
            proposer: self.proposer,
            sponsors: self.sponsors.clone(),
            proposal_type: self.proposal_type,
            vote_configuration: self.vote_configuration.clone(),
            proposal_status: self.proposal_status,
            new_variable_key_value: (
                self.new_variable_key_value.0.clone(),
                self.new_variable_key_value.1.clone(),
            ),
        }
    }
}

impl Proposal {
    /// A copy of a map of milestones.
    pub fn clone_milestones(milestones: &BTreeMap<u64, Milestone>) -> (r: BTreeMap<u64, Milestone>)
        ensures
            milestones_view(r@) == milestones_view(milestones@),
    {
        let mut copy: BTreeMap<u64, Milestone> = BTreeMap::new();
        for entry in it: milestones.iter()
            invariant
                it.seq() == milestones.iter().remaining(),
                forall|k: u64| #[trigger]
                    copy@.contains_key(k) <==> exists|j: int|
                        0 <= j < it.index() && *(#[trigger] it.seq()[j]).0 == k,
                forall|k: u64| #[trigger]
                    copy@.contains_key(k) ==> milestones@.contains_key(k) && copy@[k]@
                        == milestones@[k]@,
        {
            let (key, milestone) = entry;
            assert(entry == it.seq()[it.index() as int]);
            copy.insert(*key, milestone.clone());
        }
        assert(milestones_view(copy@) =~= milestones_view(milestones@));
        copy
    }
}

impl GovernanceProposal {
    /// The proposal that `new` builds where the stake is covered.
    pub open spec fn spec_new(
        name: Seq<char>,
        vote_configuration: GovernanceVoteConfigurationSerialized,
        proposer: AccountHash,
        sponsors: Seq<(AccountHash, U256)>,
        repository_url: Seq<char>,
        new_variable_key_value: (Seq<char>, Seq<char>),
    ) -> GovernanceProposalView {
        GovernanceProposalView {
            name,
            repository_url,
            proposer,
            sponsors: sponsors_map(sponsors),
            proposal_type: ProposalType::Governance,
            vote_configuration: governance_vote_configuration_of(vote_configuration),
            proposal_status: ProposalStatus::InFullVote,
            new_variable_key_value,
        }
    }

    /// Builds a governance proposal and opens it for voting. It is refused only where
    /// the proposer stakes more than the proposer's balance.
    pub fn new(
        name: String,
        vote_configuration: GovernanceVoteConfigurationSerialized,
        staked_rep: U256,
        proposer: AccountHash,
        reputation_balance: U256,
        sponsors: Vec<(AccountHash, U256)>,
        repository_url: String,
        new_variable_key_value: (String, String),
    ) -> (r: Result<GovernanceProposal, ProposalError>)
        ensures
            match r {
                Ok(p) => staked_rep@ <= reputation_balance@ && p@ == GovernanceProposal::spec_new(
                    name@,
                    vote_configuration,
                    proposer,
                    sponsors@,
                    repository_url@,
                    (new_variable_key_value.0@, new_variable_key_value.1@),
                ),
                Err(e) => staked_rep@ > reputation_balance@ && e
                    == ProposalError::StakedRepGreaterThanReputationBalance,
            },
    {
        if staked_rep.gt(&reputation_balance) {
            return Err(ProposalError::StakedRepGreaterThanReputationBalance);
        }
        let sponsors_mapping = sponsors_mapping(&sponsors);
        Ok(
            GovernanceProposal {
                name,
                vote_configuration: GovernanceVoteConfiguration {
                    transition_vote_quorum: vote_configuration.0.0,
                    transition_vote_threshold: vote_configuration.0.1,
                    proposal_repository_address: vote_configuration.0.2,
                    full_vote_quorum: vote_configuration.1.0,
                    full_vote_threshold: vote_configuration.1.1,
                    timeout: vote_configuration.1.2,
                },
                proposal_type: ProposalType::Governance,
                proposer,
                proposal_status: ProposalStatus::InFullVote,
                sponsors: sponsors_mapping,
                repository_url,
                new_variable_key_value,
            },
        )
    }

    /// Whether `s` is the flat form of the proposal `v`: every field in its place, type
    /// and status as their codes.
    pub open spec fn is_serialized(v: GovernanceProposalView, s: GovernanceProposalSerialized) -> bool {
        &&& s.0.0@ == v.name
        &&& s.0.1@ == v.repository_url
        &&& s.0.2 == v.proposer.spec_key()
        &&& s.1.0@ == v.sponsors
        &&& s.1.1 == v.proposal_type.spec_code()
        &&& governance_vote_configuration_is_serialized(v.vote_configuration, s.1.2)
        &&& s.2.0 == v.proposal_status.spec_code()
        &&& s.2.1.0@ == v.new_variable_key_value.0
        &&& s.2.1.1@ == v.new_variable_key_value.1
    }

    /// The proposal that a flat form holds.
    pub open spec fn spec_deserialize(s: GovernanceProposalSerialized) -> GovernanceProposalView {
        GovernanceProposalView {
            name: s.0.0@,
            repository_url: s.0.1@,
            proposer: AccountHash::spec_from_key(s.0.2),
            sponsors: s.1.0@,
            proposal_type: ProposalType::spec_from_code(s.1.1),
            vote_configuration: governance_vote_configuration_of(s.1.2),
            proposal_status: ProposalStatus::spec_from_code(s.2.0),
            new_variable_key_value: (s.2.1.0@, s.2.1.1@),
        }
    }

    /// Reading the flat form of a governance proposal gives the proposal back.
    pub proof fn lemma_round_trip(v: GovernanceProposalView, s: GovernanceProposalSerialized)
        requires
            GovernanceProposal::is_serialized(v, s),
        ensures
            GovernanceProposal::spec_deserialize(s) == v,
    {
        assert(GovernanceProposal::spec_deserialize(s) =~= v);
    }

    /// The flat form of the proposal.
    pub fn serialize(&self) -> (r: GovernanceProposalSerialized)
        ensures
            GovernanceProposal::is_serialized(self@, r),
    {
        (
            (self.name.clone(), self.repository_url.clone(), self.proposer.key()),
            (
                self.serialize_sponsors(),
                self.proposal_type.code(),
                self.serialize_vote_configuration(),
            ),
            (
                self.proposal_status.code(),
                (self.new_variable_key_value.0.clone(), self.new_variable_key_value.1.clone()),
            ),
        )
    }

    /// The flat form of the vote configuration.
    pub fn serialize_vote_configuration(&self) -> (r: GovernanceVoteConfigurationSerialized)
        ensures
            governance_vote_configuration_is_serialized(self.vote_configuration@, r),
    {
        (
            (
                self.vote_configuration.transition_vote_quorum,
                self.vote_configuration.transition_vote_threshold,
                self.vote_configuration.proposal_repository_address.clone(),
            ),
            (
                self.vote_configuration.full_vote_quorum,
                self.vote_configuration.full_vote_threshold,
                self.vote_configuration.timeout,
            ),
        )
    }

    /// The pledges of the sponsors, by the key of the sponsor's account.
    pub fn serialize_sponsors(&self) -> (r: SponsorsSerialized)
        ensures
            r@ == self.sponsors@,
    {
        self.sponsors.clone()
    }

    /// The proposal that a flat form holds. A type code that names no type reads as a
    /// grant, a status code that names no status as waiting for the vote.
    pub fn deserialize(serialized_governance_proposal: GovernanceProposalSerialized) -> (r:
        GovernanceProposal)
        ensures
            r@ == GovernanceProposal::spec_deserialize(serialized_governance_proposal),
    {
        let r = GovernanceProposal {
            name: serialized_governance_proposal.0.0.clone(),
            repository_url: serialized_governance_proposal.0.1.clone(),
            proposer: AccountHash::from_key(serialized_governance_proposal.0.2),
            sponsors: GovernanceProposal::deserialize_sponsors(&serialized_governance_proposal.1.0),
            proposal_type: ProposalType::from_code(serialized_governance_proposal.1.1),
            vote_configuration: GovernanceVoteConfiguration {
                transition_vote_quorum: serialized_governance_proposal.1.2.0.0,
                transition_vote_threshold: serialized_governance_proposal.1.2.0.1,
                proposal_repository_address: serialized_governance_proposal.1.2.0.2.clone(),
                full_vote_quorum: serialized_governance_proposal.1.2.1.0,
                full_vote_threshold: serialized_governance_proposal.1.2.1.1,
                timeout: serialized_governance_proposal.1.2.1.2,
            },
            proposal_status: ProposalStatus::from_code(serialized_governance_proposal.2.0),
            new_variable_key_value: (
                serialized_governance_proposal.2.1.0.clone(),
                serialized_governance_proposal.2.1.1.clone(),
            ),
        };
        assert(r@ =~= GovernanceProposal::spec_deserialize(serialized_governance_proposal));
        r
    }

    /// The pledges that a map of flat forms holds.
    pub fn deserialize_sponsors(serialized_sponsors: &SponsorsSerialized) -> (r: BTreeMap<
        (u128, u128),
        U256,
    >)
        ensures
            r@ == serialized_sponsors@,
    {
        serialized_sponsors.clone()
    }
}


} // verus!
