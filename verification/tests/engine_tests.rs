use logic::account::AccountHash;
use logic::custom_types::{ProjectSerialized, ProposalSerialized, VotingSerialized};
use logic::error::ProposalError as P;
use logic::voting_engine::Error;
use logic::execution::{Project, ProjectStatus};
use logic::execution_engine;
use logic::governance::{assert_voting_engine, ParameterChange};
use logic::proposal::{GovernanceProposal, MilestoneInput, Proposal, ProposalType};
use logic::proposal_engine;
use logic::proposal_engine::authorize_voting_contract_update as authorize;
use logic::proposal_engine::Error as E;
use logic::reputation;
use logic::reputation::{AddKeyOutcome, KeyStep, UpdateKeyOutcome};
use logic::uint::U256;
use logic::voting::{VoteResult, Voting};
use logic::voting_engine;

fn amount(x: u64) -> U256 {
    U256::from_u64(x)
}

fn max() -> U256 {
    U256 { w0: u64::MAX, w1: u64::MAX, w2: u64::MAX, w3: u64::MAX }
}

fn ali() -> AccountHash {
    AccountHash::new(0, 1)
}

fn bob() -> AccountHash {
    AccountHash::new(0, 2)
}

fn proposer() -> AccountHash {
    AccountHash::new(0, 7)
}

fn engine() -> AccountHash {
    AccountHash::new(9, 9)
}

fn milestones() -> Vec<MilestoneInput> {
    vec![
        ((1, 60, vec![(0, amount(600), amount(0))]), 100),
        ((1, 40, vec![(0, amount(400), amount(0))]), 200),
    ]
}

fn grant() -> ProposalSerialized {
    Proposal::new(
        "grant".to_string(),
        "pointer".to_string(),
        "fingerprint".to_string(),
        0,
        vec![],
        vec![20, 0, 0],
        ((0, amount(0)), (50, 100, amount(1))),
        milestones(),
        amount(0),
        proposer(),
        0,
        amount(0),
        vec![],
        amount(1000),
    )
    .unwrap()
    .serialize()
}

fn governance(name: &str, value: &str) -> VotingSerialized {
    let g = GovernanceProposal::new(
        "change".to_string(),
        ((amount(0), 0, "address".to_string()), (amount(0), 50, 100)),
        amount(0),
        proposer(),
        amount(0),
        vec![],
        "url".to_string(),
        (name.to_string(), value.to_string()),
    )
    .unwrap();
    voting_engine::new_governance_vote(10, amount(0), g.serialize()).unwrap().0
}

fn open_vote() -> VotingSerialized {
    voting_engine::new_vote(10, amount(4), grant()).unwrap().0
}

fn cast(session: VotingSerialized, who: AccountHash, stake: u64, direction: bool) -> VotingSerialized {
    voting_engine::cast_vote(
        true,
        Some(session),
        who,
        50,
        amount(1_000_000),
        amount(stake),
        amount(0),
        direction,
    )
    .unwrap()
    .unwrap()
    .session
}

#[test]
fn opening_a_vote_advances_the_count() {
    let (session, next) = voting_engine::new_vote(10, amount(4), grant()).unwrap();
    assert_eq!(next, amount(5));
    assert_eq!(Voting::deserialize(session), Voting::new(10, grant()).unwrap());
    assert_eq!(voting_engine::new_vote(10, max(), grant()), None);
    let stored = governance("update_policing_ratio", "30");
    let proposal = stored.0 .1 .1.clone().unwrap();
    let (session, next) = voting_engine::new_governance_vote(12, amount(0), proposal).unwrap();
    assert_eq!(session.0 .0, (12, 0, amount(0)));
    assert_eq!(session.0 .1 .1, stored.0 .1 .1);
    assert_eq!(next, amount(1));
}

#[test]
fn casting_a_vote_grows_the_commitment() {
    let done = voting_engine::cast_vote(
        true,
        Some(open_vote()),
        ali(),
        50,
        amount(1_000),
        amount(300),
        amount(200),
        true,
    )
    .unwrap()
    .unwrap();
    assert_eq!(done.committed_reputation, amount(500));
    let vote = Voting::deserialize(done.session);
    assert_eq!(vote.for_votes, amount(300));
    assert_eq!(vote.total_members, 1);
}

#[test]
fn casting_a_vote_checks_membership_and_existence_first() {
    let r = voting_engine::cast_vote(false, None, ali(), 50, amount(1), amount(1), amount(0), true);
    assert_eq!(r, Some(Err(Error::NotAMember)));
    let r = voting_engine::cast_vote(true, None, ali(), 50, amount(1), amount(1), amount(0), true);
    assert_eq!(r, Some(Err(Error::VoteDoesNotExist)));
    let r = voting_engine::cast_vote(
        true,
        Some(open_vote()),
        ali(),
        101,
        amount(1),
        amount(1),
        amount(0),
        true,
    );
    assert_eq!(r, Some(Err(Error::VotingEnded)));
    let session = cast(open_vote(), ali(), 5, true);
    let r = voting_engine::cast_vote(
        true,
        Some(session),
        ali(),
        50,
        amount(10),
        amount(1),
        amount(0),
        true,
    );
    assert_eq!(r, Some(Err(Error::AlreadyVoted)));
}

#[test]
fn session_that_the_engine_could_not_have_stored_is_not_served() {
    // The kind announces a governance proposal, the form holds a grant.
    let mut session = open_vote();
    session.0 .1 .2 = 1;
    let r = voting_engine::cast_vote(
        true,
        Some(session),
        ali(),
        50,
        amount(10),
        amount(1),
        amount(0),
        true,
    );
    assert_eq!(r, None);
    // The sides do not add up to the total.
    let mut session = cast(open_vote(), ali(), 5, true);
    session.1 .0 = amount(6);
    let r = voting_engine::cast_vote(
        true,
        Some(session.clone()),
        bob(),
        50,
        amount(10),
        amount(1),
        amount(0),
        true,
    );
    assert_eq!(r, None);
    assert_eq!(voting_engine::claim_reputation(true, Some(session), ali()), None);
    // A voter is recorded on both sides.
    let mut session = cast(open_vote(), ali(), 5, true);
    session.2 .1.insert((0, 1), (amount(0), false, false));
    let r = voting_engine::cast_vote(
        true,
        Some(session),
        bob(),
        50,
        amount(10),
        amount(1),
        amount(0),
        true,
    );
    assert_eq!(r, None);
    // The total stake would leave the range.
    let mut session = open_vote();
    session.0 .0 .2 = max();
    session.1 .0 = max();
    let r = voting_engine::cast_vote(
        true,
        Some(session.clone()),
        bob(),
        50,
        amount(10),
        amount(1),
        amount(0),
        true,
    );
    assert_eq!(r, None);
    // A refused vote is reported all the same.
    let r = voting_engine::cast_vote(
        true,
        Some(session),
        bob(),
        101,
        amount(10),
        amount(1),
        amount(0),
        true,
    );
    assert_eq!(r, Some(Err(Error::VotingEnded)));
}

#[test]
fn outcome_of_a_grant_is_stored_with_the_session() {
    let session = cast(cast(open_vote(), ali(), 700, true), bob(), 300, false);
    assert_eq!(
        voting_engine::calculate_vote_outcome(None, 150, 10),
        Some(Err(Error::VoteDoesNotExist))
    );
    assert_eq!(
        voting_engine::calculate_vote_outcome(Some(session.clone()), 99, 10),
        Some(Err(Error::VotingOngoing))
    );
    let done = voting_engine::calculate_vote_outcome(Some(session.clone()), 150, 10).unwrap().unwrap();
    assert_eq!(done.outcome, VoteResult::Approved.code());
    assert_eq!(done.change, None);
    let vote = Voting::deserialize(done.session);
    assert_eq!(vote.result, VoteResult::Approved);
    assert_eq!(vote.input_reputation, amount(100_000_000));
    // An approved grant needs an allocation ratio between 1 and 10^12.
    assert_eq!(voting_engine::calculate_vote_outcome(Some(session.clone()), 150, 0), None);
    assert_eq!(
        voting_engine::calculate_vote_outcome(Some(session.clone()), 150, 1_000_000_000_001),
        None
    );
    // Before the end of the vote the ratio is not looked at.
    assert_eq!(
        voting_engine::calculate_vote_outcome(Some(session), 99, 0),
        Some(Err(Error::VotingOngoing))
    );
    // A rejected grant needs none.
    let session = cast(cast(open_vote(), ali(), 300, true), bob(), 700, false);
    let done = voting_engine::calculate_vote_outcome(Some(session), 150, 0).unwrap().unwrap();
    assert_eq!(done.outcome, VoteResult::Rejected.code());
}

#[test]
fn vote_out_of_full_vote_is_reported_as_failed() {
    let mut session = open_vote();
    session.0 .1 .0.as_mut().unwrap().1 .0 = 2;
    assert_eq!(
        voting_engine::calculate_vote_outcome(Some(session), 150, 10),
        Some(Err(Error::VoteFailed))
    );
}

#[test]
fn confirmed_governance_proposal_hands_back_its_change() {
    let session = cast(governance("update_policing_ratio", "30"), ali(), 700, true);
    let first = voting_engine::calculate_vote_outcome(Some(session), 100, 0).unwrap().unwrap();
    assert_eq!(first.outcome, VoteResult::Approved.code());
    assert_eq!(first.change, None);
    let second =
        voting_engine::calculate_vote_outcome(Some(first.session), 100, 0).unwrap().unwrap();
    assert_eq!(second.outcome, VoteResult::Approved.code());
    assert_eq!(second.change, Some(ParameterChange::PolicingRatio(30)));
}

#[test]
fn confirmed_governance_proposal_with_an_unknown_parameter_is_refused() {
    let session = cast(governance("update_everything", "30"), ali(), 700, true);
    let first = voting_engine::calculate_vote_outcome(Some(session), 100, 0).unwrap().unwrap();
    assert_eq!(
        voting_engine::calculate_vote_outcome(Some(first.session), 100, 0),
        Some(Err(Error::UnknownParameter))
    );
    let session = cast(governance("update_policing_ratio", "a lot"), ali(), 700, true);
    let first = voting_engine::calculate_vote_outcome(Some(session), 100, 0).unwrap().unwrap();
    assert_eq!(
        voting_engine::calculate_vote_outcome(Some(first.session), 100, 0),
        Some(Err(Error::InvalidParameterValue))
    );
    // A rejected proposal is not read.
    let session = cast(governance("update_everything", "30"), ali(), 700, false);
    let first = voting_engine::calculate_vote_outcome(Some(session), 100, 0).unwrap().unwrap();
    let second =
        voting_engine::calculate_vote_outcome(Some(first.session), 100, 0).unwrap().unwrap();
    assert_eq!(second.outcome, VoteResult::Rejected.code());
    assert_eq!(second.change, None);
}

#[test]
fn claim_is_transferred_where_it_is_not_zero() {
    let session = cast(cast(open_vote(), ali(), 700, true), bob(), 300, false);
    let session = voting_engine::calculate_vote_outcome(Some(session), 150, 10)
        .unwrap()
        .unwrap()
        .session;
    assert_eq!(
        voting_engine::claim_reputation(false, Some(session.clone()), ali()),
        Some(Err(Error::NotAMember))
    );
    assert_eq!(
        voting_engine::claim_reputation(true, None, ali()),
        Some(Err(Error::VoteDoesNotExist))
    );
    assert_eq!(
        voting_engine::claim_reputation(true, Some(session.clone()), proposer()),
        Some(Err(Error::NoReputationToClaim))
    );
    let done = voting_engine::claim_reputation(true, Some(session), ali()).unwrap().unwrap();
    // shares = 100; share = 300; bonus = (10^8 / 10^12) * ... = 0
    assert_eq!(done.transfer, Some(amount(1000)));
    assert_eq!(
        voting_engine::claim_reputation(true, Some(done.session), ali()),
        Some(Err(Error::ReputationAlreadyClaimed))
    );
}

#[test]
fn claim_of_nothing_is_not_transferred() {
    let session = cast(cast(open_vote(), ali(), 0, true), bob(), 5, true);
    let session = voting_engine::calculate_vote_outcome(Some(session), 150, 10)
        .unwrap()
        .unwrap()
        .session;
    let done = voting_engine::claim_reputation(true, Some(session), ali()).unwrap().unwrap();
    assert_eq!(done.transfer, None);
    assert!(Voting::deserialize(done.session).for_voters.get(&(0, 1)).unwrap().claimed);
}

#[test]
fn claim_on_a_result_that_contradicts_the_votes_is_not_served() {
    let mut session = cast(cast(open_vote(), ali(), 300, true), bob(), 700, false);
    session.2 .2 = VoteResult::Approved.code();
    assert_eq!(voting_engine::claim_reputation(true, Some(session), ali()), None);
}

#[test]
fn access_is_granted_to_the_named_accounts_only() {
    assert_eq!(voting_engine::assert_admin(ali(), ali(), bob()), Ok(()));
    assert_eq!(voting_engine::assert_admin(bob(), ali(), bob()), Ok(()));
    assert_eq!(
        voting_engine::assert_admin(proposer(), ali(), bob()),
        Err(Error::NotTheAdminAccount)
    );
    assert_eq!(voting_engine::assert_member(true), Ok(()));
    assert_eq!(voting_engine::assert_member(false), Err(Error::NotAMember));
    assert_eq!(voting_engine::assert_caller(ali(), ali()), Ok(()));
    assert_eq!(voting_engine::assert_caller(ali(), bob()), Err(Error::NotTheAdminAccount));
    assert_eq!(proposal_engine::assert_admin(ali(), ali(), bob()), Ok(()));
    assert_eq!(
        proposal_engine::assert_admin(proposer(), ali(), bob()),
        Err(proposal_engine::Error::NotTheAdminAccount)
    );
    assert_eq!(proposal_engine::assert_caller(ali(), ali()), Ok(()));
    assert_eq!(
        proposal_engine::assert_caller(ali(), bob()),
        Err(proposal_engine::Error::NotTheAdminAccount)
    );
    assert_eq!(reputation::assert_admin(bob(), ali(), bob()), Ok(()));
    assert_eq!(
        reputation::assert_admin(proposer(), ali(), bob()),
        Err(reputation::Error::NotTheAdminAccount)
    );
    assert_eq!(assert_voting_engine(engine(), engine()), Ok(()));
    assert_eq!(
        assert_voting_engine(ali(), engine()),
        Err(logic::governance::Error::NotVotingEngine)
    );
}

#[test]
fn voting_engine_address_is_set_by_the_deployer_once() {
    assert_eq!(authorize(false, ali(), ali(), engine()), Ok(()));
    assert_eq!(
        authorize(false, engine(), ali(), engine()),
        Err(proposal_engine::Error::NotTheAdminAccount)
    );
    assert_eq!(authorize(true, engine(), ali(), engine()), Ok(()));
    assert_eq!(
        authorize(true, ali(), ali(), engine()),
        Err(proposal_engine::Error::NotTheAdminAccount)
    );
}

fn create(
    changed: bool,
    is_member: bool,
    ratios: Vec<u8>,
    staked: u64,
    cost: u64,
) -> Option<Result<proposal_engine::ProposalCreated, proposal_engine::Error>> {
    proposal_engine::create_proposal(
        changed,
        is_member,
        proposer(),
        amount(400),
        10,
        "grant".to_string(),
        "pointer".to_string(),
        "fingerprint".to_string(),
        0,
        vec![],
        ratios,
        ((0, amount(0)), (50, 100, amount(1))),
        milestones(),
        amount(staked),
        vec![],
        amount(cost),
    )
}

#[test]
fn proposal_is_created_for_members_once_the_voting_engine_is_set() {
    assert_eq!(
        create(false, false, vec![20, 0, 0], 100, 1000),
        Some(Err(E::InvalidVotingContractAddress))
    );
    assert_eq!(create(true, false, vec![20, 0, 0], 100, 1000), Some(Err(E::NotAMember)));
    assert_eq!(create(true, true, vec![20, 0], 100, 1000), None);
    assert_eq!(create(true, true, vec![9, 0, 0], 100, 1000), Some(Err(E::InvalidPolicingRatio)));
    assert_eq!(
        create(true, true, vec![20, 0, 0], 401, 1000),
        Some(Err(E::StakedRepGreaterThanReputationBalance))
    );
    assert_eq!(
        create(true, true, vec![20, 0, 0], 100, 999),
        Some(Err(E::ProjectCostNotEqualToMilestonesSum))
    );
    let done = create(true, true, vec![20, 0, 0], 100, 1000).unwrap().unwrap();
    assert_eq!(done.staked_rep, amount(100));
    let proposal = Proposal::deserialize(done.proposal);
    assert_eq!(proposal.proposer, proposer());
    assert_eq!(proposal.cost, amount(1000));
}

#[test]
fn governance_proposal_is_created_for_members_once_the_voting_engine_is_set() {
    let create = |changed: bool, is_member: bool, staked: u64| {
        proposal_engine::create_governance_proposal(
            changed,
            is_member,
            proposer(),
            amount(400),
            "change".to_string(),
            ((amount(0), 0, "address".to_string()), (amount(0), 50, 100)),
            amount(staked),
            vec![],
            "url".to_string(),
            ("update_policing_ratio".to_string(), "30".to_string()),
        )
    };
    assert_eq!(create(false, true, 100), Err(E::InvalidVotingContractAddress));
    assert_eq!(create(true, false, 100), Err(E::NotAMember));
    assert_eq!(create(true, true, 401), Err(E::StakedRepGreaterThanReputationBalance));
    let done = create(true, true, 400).unwrap();
    assert_eq!(done.staked_rep, amount(400));
    assert_eq!(GovernanceProposal::deserialize(done.proposal).proposer, proposer());
}

#[test]
fn proposal_errors_keep_their_names_and_numbers() {
    assert_eq!(E::from_proposal(P::InvalidCategory), E::InvalidCategory);
    assert_eq!(E::from_proposal(P::InvalidPolicingRatio), E::InvalidPolicingRatio);
    assert_eq!(
        E::from_proposal(P::InvalidMilestonesProgressPercentages),
        E::InvalidMilestonesProgressPercentages
    );
    assert_eq!(
        E::from_proposal(P::ProjectCostNotEqualToMilestonesSum),
        E::ProjectCostNotEqualToMilestonesSum
    );
    assert_eq!(
        E::from_proposal(P::StakedRepGreaterThanReputationBalance),
        E::StakedRepGreaterThanReputationBalance
    );
    assert_eq!(E::NotTheAdminAccount.code(), 0);
    assert_eq!(E::InvalidPolicingRatio.code(), 1);
    assert_eq!(E::NotAMember.code(), 2);
    assert_eq!(E::InvalidCategory.code(), 3);
    assert_eq!(E::InvalidMilestonesProgressPercentages.code(), 4);
    assert_eq!(E::ProjectCostNotEqualToMilestonesSum.code(), 5);
    assert_eq!(E::StakedRepGreaterThanReputationBalance.code(), 6);
    assert_eq!(E::InvalidVotingContractAddress.code(), 7);
    assert_eq!(proposal_engine::ProposalStatus::Accepted.code(), 0);
    assert_eq!(proposal_engine::ProposalStatus::PendingApproval.code(), 6);
    assert_eq!(proposal_engine::ProposalType::Signaling.code(), 0);
    assert_eq!(proposal_engine::ProposalType::External.code(), 3);
    assert_eq!(reputation::Error::NotTheAdminAccount.code(), 0);
}

fn stored_project() -> ProjectSerialized {
    execution_engine::new_project(engine(), engine(), amount(0), grant()).unwrap().unwrap().0
}

#[test]
fn project_is_opened_by_the_voting_engine() {
    assert_eq!(
        execution_engine::new_project(ali(), engine(), amount(0), grant()),
        Some(Err(E::NotTheAdminAccount))
    );
    assert_eq!(execution_engine::new_project(engine(), engine(), max(), grant()), None);
    let (project, next) =
        execution_engine::new_project(engine(), engine(), amount(3), grant()).unwrap().unwrap();
    assert_eq!(next, amount(4));
    assert_eq!(Project::deserialize(project), Project::new(grant()).unwrap());
}

#[test]
fn milestone_runs_from_claim_to_approval() {
    let project = stored_project();
    assert_eq!(
        execution_engine::trigger_milestone_completion(project.clone(), ali()),
        Some(Err(E::NotTheAdminAccount))
    );
    let claimed =
        execution_engine::trigger_milestone_completion(project.clone(), proposer()).unwrap().unwrap();
    assert_eq!(Project::deserialize(claimed.clone()).status, ProjectStatus::MilestoneUnderReview);
    // A project under review cannot claim again.
    assert_eq!(execution_engine::trigger_milestone_completion(claimed.clone(), proposer()), None);

    assert_eq!(
        execution_engine::analysis_vote(claimed.clone(), ali(), amount(3)),
        Err(E::NotTheAdminAccount)
    );
    let on_vote = execution_engine::analysis_vote(claimed.clone(), proposer(), amount(3)).unwrap();
    let on_vote = Proposal::deserialize(on_vote);
    assert_eq!(on_vote.proposal_type, ProposalType::AnalysisAcceptance);
    assert_eq!(on_vote.cost, amount(3));
    assert_eq!(on_vote.name, "grant");

    // An active project has nothing to analyse.
    assert_eq!(
        execution_engine::submit_milestone_analysis(project, proposer(), true, vec![], amount(8)),
        None
    );
    assert_eq!(
        execution_engine::submit_milestone_analysis(claimed.clone(), ali(), true, vec![], amount(8)),
        Some(Err(E::NotTheAdminAccount))
    );
    let analysed =
        execution_engine::submit_milestone_analysis(claimed.clone(), proposer(), true, vec![], amount(8))
            .unwrap()
            .unwrap();
    assert_eq!(
        Project::deserialize(analysed.clone()).status,
        ProjectStatus::VotingOnMilestoneAnalysis
    );

    assert_eq!(
        execution_engine::approve_milestone_analysis(analysed.clone(), ali(), engine(), amount(8)),
        Some(Err(E::NotTheAdminAccount))
    );
    // No analysis was submitted under this index.
    assert_eq!(
        execution_engine::approve_milestone_analysis(analysed.clone(), engine(), engine(), amount(9)),
        None
    );
    // A project under review does not await a vote.
    assert_eq!(
        execution_engine::approve_milestone_analysis(claimed, engine(), engine(), amount(8)),
        None
    );
    let (approved, next_vote) =
        execution_engine::approve_milestone_analysis(analysed, engine(), engine(), amount(8))
            .unwrap()
            .unwrap();
    let approved = Project::deserialize(approved);
    assert_eq!(approved.status, ProjectStatus::Active);
    assert_eq!(approved.active_milestone, 1);
    let next_vote = Proposal::deserialize(next_vote);
    assert_eq!(next_vote.proposal_type, ProposalType::AnalysisAcceptance);
    assert_eq!(next_vote.cost, amount(1000));
}

#[test]
fn timeout_is_stored_where_it_fires() {
    let project = stored_project();
    assert_eq!(execution_engine::check_timeout(project.clone(), 100), Some((false, None)));
    let (timed_out, stored) = execution_engine::check_timeout(project.clone(), 150).unwrap();
    assert!(timed_out);
    let stored = stored.unwrap();
    assert_eq!(Project::deserialize(stored.clone()).status, ProjectStatus::MilestoneTimeout);
    assert_eq!(execution_engine::check_timeout(stored, 200), Some((false, None)));
    // A project whose active milestone is none of its proposal's has nothing to look at.
    let mut broken = project;
    broken.0 .1 = 2;
    assert_eq!(execution_engine::check_timeout(broken, 150), None);
}

#[test]
fn transfer_moves_what_the_sender_owns() {
    assert_eq!(
        reputation::transfer(ali(), bob(), amount(10), amount(5), amount(4)),
        Some((amount(6), amount(9)))
    );
    assert_eq!(
        reputation::transfer(ali(), bob(), amount(10), amount(5), amount(10)),
        Some((amount(0), amount(15)))
    );
    assert_eq!(reputation::transfer(ali(), bob(), amount(10), amount(5), amount(11)), None);
    assert_eq!(reputation::transfer(ali(), bob(), amount(10), max(), amount(1)), None);
    assert_eq!(
        reputation::transfer(ali(), bob(), amount(10), max(), amount(0)),
        Some((amount(10), max()))
    );
}

#[test]
fn transfer_to_oneself_changes_nothing() {
    assert_eq!(
        reputation::transfer(ali(), ali(), amount(10), amount(10), amount(4)),
        Some((amount(10), amount(10)))
    );
    assert_eq!(reputation::transfer(ali(), ali(), amount(10), amount(10), amount(11)), None);
    assert_eq!(reputation::transfer(ali(), ali(), max(), max(), amount(1)), Some((max(), max())));
}

#[test]
fn mint_and_burn_move_supply_and_balance_together() {
    assert_eq!(reputation::mint(amount(100), amount(5), amount(7)), Some((amount(107), amount(12))));
    assert_eq!(reputation::mint(max(), amount(5), amount(1)), None);
    assert_eq!(reputation::mint(amount(5), max(), amount(1)), None);
    assert_eq!(reputation::burn(amount(100), amount(5), amount(5)), Some((amount(95), amount(0))));
    assert_eq!(reputation::burn(amount(100), amount(5), amount(6)), None);
    assert_eq!(reputation::burn(amount(4), amount(5), amount(5)), None);
}

#[test]
fn key_is_added_where_the_account_has_none() {
    assert_eq!(reputation::after_update_key(UpdateKeyOutcome::Updated), KeyStep::Done);
    assert_eq!(reputation::after_update_key(UpdateKeyOutcome::MissingKey), KeyStep::AddKey);
    assert_eq!(
        reputation::after_update_key(UpdateKeyOutcome::PermissionDenied),
        KeyStep::Refuse(Error::PermissionDenied)
    );
    assert_eq!(
        reputation::after_update_key(UpdateKeyOutcome::ThresholdViolation),
        KeyStep::Refuse(Error::ThresholdViolation)
    );
    assert_eq!(reputation::add_key(AddKeyOutcome::Added), KeyStep::Done);
    assert_eq!(
        reputation::add_key(AddKeyOutcome::MaxKeysLimit),
        KeyStep::Refuse(Error::MaxKeysLimit)
    );
    assert_eq!(
        reputation::add_key(AddKeyOutcome::DuplicateKey),
        KeyStep::Refuse(Error::DuplicateKey)
    );
    assert_eq!(
        reputation::add_key(AddKeyOutcome::PermissionDenied),
        KeyStep::Refuse(Error::PermissionDenied)
    );
    assert_eq!(Error::PermissionDenied.code(), 2);
    assert_eq!(Error::ThresholdViolation.code(), 3);
    assert_eq!(Error::MaxKeysLimit.code(), 4);
    assert_eq!(Error::DuplicateKey.code(), 5);
}
