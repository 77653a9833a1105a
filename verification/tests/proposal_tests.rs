use logic::account::AccountHash;
use logic::custom_types::{GovernanceVoteConfigurationSerialized, VoteConfigurationSerialized};
use logic::error::ProposalError;
use logic::proposal::{
    GovernanceProposal, Milestone, MilestoneInput, Proposal, ProposalStatus, ProposalType,
};
use logic::uint::U256;

fn amount(x: u64) -> U256 {
    U256::from_u64(x)
}

fn proposer() -> AccountHash {
    AccountHash::new(0, 7)
}

fn vote_configuration() -> VoteConfigurationSerialized {
    ((2, amount(100)), (50, 1_000, amount(1)))
}

fn two_milestones() -> Vec<MilestoneInput> {
    vec![
        ((1, 60, vec![(0, amount(400), amount(4)), (1, amount(200), amount(2))]), 100),
        ((2, 40, vec![(0, amount(400), amount(4))]), 200),
    ]
}

fn grant(
    category: u8,
    ratios: Vec<u8>,
    milestones: Vec<MilestoneInput>,
    staked_rep: u64,
    system_policing_ratio: u8,
    reputation_balance: u64,
    cost: u64,
) -> Result<Proposal, ProposalError> {
    Proposal::new(
        "library".to_string(),
        "pointer".to_string(),
        "fingerprint".to_string(),
        category,
        vec![3, 5],
        ratios,
        vote_configuration(),
        milestones,
        amount(staked_rep),
        proposer(),
        system_policing_ratio,
        amount(reputation_balance),
        vec![(AccountHash::new(0, 9), amount(50)), (AccountHash::new(0, 8), amount(60))],
        amount(cost),
    )
}

#[test]
fn valid_grant_is_built_in_full_vote() {
    let p = grant(0, vec![20, 70, 10], two_milestones(), 100, 10, 400, 1000).unwrap();
    assert_eq!(p.proposal_status, ProposalStatus::InFullVote);
    assert_eq!(p.proposal_type, ProposalType::Grant);
    assert_eq!(p.name, "library");
    assert_eq!(p.storage_pointer, "pointer");
    assert_eq!(p.storage_fingerprint, "fingerprint");
    assert_eq!(p.proposer, proposer());
    assert_eq!(p.citations, vec![3, 5]);
    assert_eq!(p.ratios.policing_ratio, 20);
    assert_eq!(p.ratios.op_ratio, 70);
    assert_eq!(p.ratios.citation_ratio, 10);
    assert_eq!(p.vote_configuration.member_quorum, 2);
    assert_eq!(p.vote_configuration.reputation_quorum, amount(100));
    assert_eq!(p.vote_configuration.threshold, 50);
    assert_eq!(p.vote_configuration.timeout, 1_000);
    assert_eq!(p.vote_configuration.voter_staking_limits, amount(1));
    assert_eq!(p.cost, amount(1000));
    assert_eq!(p.milestones.len(), 2);
    let first = p.milestones.get(&0).unwrap();
    assert_eq!(first.milestone_type, 1);
    assert_eq!(first.progress_percentage, 60);
    assert_eq!(first.result, 2);
    assert_eq!(first.timeout, 100);
    assert_eq!(first.funding_tranches_size, 2);
    assert_eq!(first.funding_tranches.get(&1).unwrap().amount, amount(200));
    assert_eq!(first.funding_tranches.get(&1).unwrap().funding_tranche_type, 1);
    assert_eq!(first.funding_tranches.get(&1).unwrap().reputation_allocation, amount(2));
    let second = p.milestones.get(&1).unwrap();
    assert_eq!(second.progress_percentage, 40);
    assert_eq!(second.timeout, 200);
    assert_eq!(second.funding_tranches_size, 1);
    assert_eq!(p.sponsors.len(), 2);
    assert_eq!(p.sponsors.get(&(0, 9)), Some(&amount(50)));
    assert_eq!(p.sponsors.get(&(0, 8)), Some(&amount(60)));
}

#[test]
fn stake_above_balance_is_refused() {
    let r = grant(0, vec![20, 70, 10], two_milestones(), 500, 10, 400, 1000);
    assert_eq!(r.unwrap_err(), ProposalError::StakedRepGreaterThanReputationBalance);
}

#[test]
fn stake_equal_to_balance_is_accepted() {
    assert!(grant(0, vec![20, 70, 10], two_milestones(), 400, 10, 400, 1000).is_ok());
}

#[test]
fn policing_ratio_below_system_minimum_is_refused() {
    let r = grant(0, vec![9, 70, 10], two_milestones(), 100, 10, 400, 1000);
    assert_eq!(r.unwrap_err(), ProposalError::InvalidPolicingRatio);
}

#[test]
fn policing_ratio_above_hundred_is_refused() {
    let r = grant(0, vec![101, 70, 10], two_milestones(), 100, 10, 400, 1000);
    assert_eq!(r.unwrap_err(), ProposalError::InvalidPolicingRatio);
    assert!(grant(0, vec![100, 0, 0], two_milestones(), 100, 10, 400, 1000).is_ok());
    assert!(grant(0, vec![10, 0, 0], two_milestones(), 100, 10, 400, 1000).is_ok());
}

#[test]
fn category_above_one_is_refused() {
    let r = grant(2, vec![20, 70, 10], two_milestones(), 100, 10, 400, 1000);
    assert_eq!(r.unwrap_err(), ProposalError::InvalidCategory);
    let p = grant(1, vec![20, 70, 10], two_milestones(), 100, 10, 400, 1000).unwrap();
    assert_eq!(p.proposal_type, ProposalType::Grant);
}

#[test]
fn cost_must_equal_sum_of_tranches() {
    let r = grant(0, vec![20, 70, 10], two_milestones(), 100, 10, 400, 999);
    assert_eq!(r.unwrap_err(), ProposalError::ProjectCostNotEqualToMilestonesSum);
    let r = grant(0, vec![20, 70, 10], two_milestones(), 100, 10, 400, 1001);
    assert_eq!(r.unwrap_err(), ProposalError::ProjectCostNotEqualToMilestonesSum);
}

#[test]
fn tranche_sum_beyond_range_is_not_the_cost() {
    let max = U256 { w0: u64::MAX, w1: u64::MAX, w2: u64::MAX, w3: u64::MAX };
    let milestones: Vec<MilestoneInput> =
        vec![((1, 100, vec![(0, max, amount(0)), (0, amount(1), amount(0))]), 100)];
    let r = grant(0, vec![20, 70, 10], milestones, 100, 10, 400, 0);
    assert_eq!(r.unwrap_err(), ProposalError::ProjectCostNotEqualToMilestonesSum);
}

#[test]
fn progress_must_add_up_to_hundred() {
    let mut milestones = two_milestones();
    milestones[1].0 .1 = 39;
    let r = grant(0, vec![20, 70, 10], milestones, 100, 10, 400, 1000);
    assert_eq!(r.unwrap_err(), ProposalError::InvalidMilestonesProgressPercentages);
}

#[test]
fn progress_sum_is_not_taken_modulo_256() {
    // 200 + 156 = 356, which is 100 modulo 256.
    let milestones: Vec<MilestoneInput> = vec![
        ((1, 200, vec![(0, amount(600), amount(0))]), 100),
        ((1, 156, vec![(0, amount(400), amount(0))]), 100),
    ];
    let r = grant(0, vec![20, 70, 10], milestones, 100, 10, 400, 1000);
    assert_eq!(r.unwrap_err(), ProposalError::InvalidMilestonesProgressPercentages);
}

#[test]
fn checks_are_made_in_order() {
    // Every check fails: the policing ratio is reported.
    let r = grant(2, vec![5, 70, 10], vec![], 500, 10, 400, 1);
    assert_eq!(r.unwrap_err(), ProposalError::InvalidPolicingRatio);
    // All but the first fail: the category is reported.
    let r = grant(2, vec![20, 70, 10], vec![], 500, 10, 400, 1);
    assert_eq!(r.unwrap_err(), ProposalError::InvalidCategory);
    // Stake, cost and progress fail: the stake is reported.
    let r = grant(0, vec![20, 70, 10], vec![], 500, 10, 400, 1);
    assert_eq!(r.unwrap_err(), ProposalError::StakedRepGreaterThanReputationBalance);
    // Cost and progress fail: the cost is reported.
    let r = grant(0, vec![20, 70, 10], vec![], 100, 10, 400, 1);
    assert_eq!(r.unwrap_err(), ProposalError::ProjectCostNotEqualToMilestonesSum);
    // Only the progress fails.
    let r = grant(0, vec![20, 70, 10], vec![], 100, 10, 400, 0);
    assert_eq!(r.unwrap_err(), ProposalError::InvalidMilestonesProgressPercentages);
}

#[test]
fn later_pledge_of_a_sponsor_stands() {
    let p = Proposal::new(
        "n".to_string(),
        "p".to_string(),
        "f".to_string(),
        0,
        vec![],
        vec![20, 70, 10],
        vote_configuration(),
        two_milestones(),
        amount(0),
        proposer(),
        10,
        amount(0),
        vec![
            (AccountHash::new(1, 1), amount(5)),
            (AccountHash::new(1, 2), amount(6)),
            (AccountHash::new(1, 1), amount(7)),
        ],
        amount(1000),
    )
    .unwrap();
    assert_eq!(p.sponsors.len(), 2);
    assert_eq!(p.sponsors.get(&(1, 1)), Some(&amount(7)));
}

#[test]
fn proposal_round_trips() {
    let p = grant(0, vec![20, 70, 10], two_milestones(), 100, 10, 400, 1000).unwrap();
    let flat = p.serialize();
    assert_eq!(flat.0 .0 .0, "library");
    assert_eq!(flat.0 .1 .0, 0);
    assert_eq!(flat.0 .1 .1, (0, 7));
    assert_eq!(flat.0 .2 .0, [20, 70, 10]);
    assert_eq!(flat.0 .2 .1, vote_configuration());
    assert_eq!(flat.0 .2 .2.get(&0).unwrap().0, (1, 60, 2));
    assert_eq!(flat.0 .2 .2.get(&0).unwrap().1 .1, 2);
    assert_eq!(flat.0 .2 .2.get(&0).unwrap().1 .2, 100);
    assert_eq!(flat.0 .2 .2.get(&0).unwrap().1 .0.get(&1), Some(&(1, amount(200), amount(2))));
    assert_eq!(flat.1 .0, 1);
    assert_eq!(flat.1 .2, amount(1000));
    assert_eq!(Proposal::deserialize(flat), p);
}

#[test]
fn proposal_of_every_type_and_status_round_trips() {
    for proposal_type in
        [ProposalType::Grant, ProposalType::Governance, ProposalType::AnalysisAcceptance]
    {
        for status in [
            ProposalStatus::WaitingFullVote,
            ProposalStatus::InFullVote,
            ProposalStatus::FullVoteComplete,
        ] {
            let mut p = grant(0, vec![20, 70, 10], two_milestones(), 100, 10, 400, 1000).unwrap();
            p.proposal_type = proposal_type;
            p.proposal_status = status;
            assert_eq!(Proposal::deserialize(p.serialize()), p);
        }
    }
}

#[test]
fn unknown_codes_read_as_defaults() {
    let p = grant(0, vec![20, 70, 10], two_milestones(), 100, 10, 400, 1000).unwrap();
    let mut flat = p.serialize();
    flat.0 .1 .0 = 9;
    flat.1 .0 = 9;
    let q = Proposal::deserialize(flat);
    assert_eq!(q.proposal_type, ProposalType::Grant);
    assert_eq!(q.proposal_status, ProposalStatus::WaitingFullVote);
    assert_eq!(ProposalStatus::from_code(0), ProposalStatus::WaitingFullVote);
    assert_eq!(ProposalStatus::from_code(1), ProposalStatus::InFullVote);
    assert_eq!(ProposalStatus::from_code(2), ProposalStatus::FullVoteComplete);
    assert_eq!(ProposalType::from_code(1), ProposalType::Governance);
    assert_eq!(ProposalType::from_code(2), ProposalType::AnalysisAcceptance);
}

#[test]
fn milestone_equality_looks_at_every_tranche() {
    let p = grant(0, vec![20, 70, 10], two_milestones(), 100, 10, 400, 1000).unwrap();
    let first = p.milestones.get(&0).unwrap();
    let second = p.milestones.get(&1).unwrap();
    assert!(first.same(&first.clone()));
    assert!(!first.same(second));
    let mut changed: Milestone = first.clone();
    changed.funding_tranches.get_mut(&1).unwrap().amount = amount(201);
    assert!(!first.same(&changed));
    let mut moved: Milestone = first.clone();
    let tranche = moved.funding_tranches.remove(&1).unwrap();
    moved.funding_tranches.insert(5, tranche);
    assert!(!first.same(&moved));
    assert!(!moved.same(first));
}

fn governance_configuration() -> GovernanceVoteConfigurationSerialized {
    ((amount(10), 40, "repository".to_string()), (amount(20), 50, 1_000))
}

fn governance(staked_rep: u64, reputation_balance: u64) -> Result<GovernanceProposal, ProposalError> {
    GovernanceProposal::new(
        "raise the ratio".to_string(),
        governance_configuration(),
        amount(staked_rep),
        proposer(),
        amount(reputation_balance),
        vec![(AccountHash::new(0, 9), amount(50))],
        "https://example.org/repo".to_string(),
        ("update_policing_ratio".to_string(), "30".to_string()),
    )
}

#[test]
fn governance_proposal_is_built_in_full_vote() {
    let g = governance(400, 400).unwrap();
    assert_eq!(g.name, "raise the ratio");
    assert_eq!(g.repository_url, "https://example.org/repo");
    assert_eq!(g.proposer, proposer());
    assert_eq!(g.proposal_type, ProposalType::Governance);
    assert_eq!(g.proposal_status, ProposalStatus::InFullVote);
    assert_eq!(g.vote_configuration.transition_vote_quorum, amount(10));
    assert_eq!(g.vote_configuration.transition_vote_threshold, 40);
    assert_eq!(g.vote_configuration.proposal_repository_address, "repository");
    assert_eq!(g.vote_configuration.full_vote_quorum, amount(20));
    assert_eq!(g.vote_configuration.full_vote_threshold, 50);
    assert_eq!(g.vote_configuration.timeout, 1_000);
    assert_eq!(g.sponsors.get(&(0, 9)), Some(&amount(50)));
    assert_eq!(
        g.new_variable_key_value,
        ("update_policing_ratio".to_string(), "30".to_string())
    );
}

#[test]
fn governance_proposal_is_refused_for_the_stake_only() {
    assert_eq!(
        governance(401, 400).unwrap_err(),
        ProposalError::StakedRepGreaterThanReputationBalance
    );
}

#[test]
fn governance_proposal_round_trips() {
    let g = governance(400, 400).unwrap();
    let flat = g.serialize();
    assert_eq!(flat.0 .2, (0, 7));
    assert_eq!(flat.1 .1, 1);
    assert_eq!(flat.2 .0, 1);
    assert_eq!(flat.1 .2, governance_configuration());
    assert_eq!(GovernanceProposal::deserialize(flat), g);
}
