use logic::account::AccountHash;
use logic::custom_types::ProposalSerialized;
use logic::error::VotingEngineError;
use logic::proposal::{GovernanceProposal, MilestoneInput, Proposal, ProposalStatus};
use logic::uint::U256;
use logic::voting::{Payload, VoteResult, Voting, VotingData};

fn amount(x: u64) -> U256 {
    U256::from_u64(x)
}

fn ali() -> AccountHash {
    AccountHash::new(0, 1)
}

fn bob() -> AccountHash {
    AccountHash::new(0, 2)
}

fn jon() -> AccountHash {
    AccountHash::new(0, 3)
}

fn proposer() -> AccountHash {
    AccountHash::new(0, 7)
}

/// A grant of cost 1000 whose vote ends at 100.
fn grant_flat(
    member_quorum: u64,
    reputation_quorum: u64,
    threshold: u8,
    staking_limit: u64,
    policing_ratio: u8,
) -> ProposalSerialized {
    let milestones: Vec<MilestoneInput> = vec![
        ((1, 60, vec![(0, amount(600), amount(0))]), 500),
        ((1, 40, vec![(0, amount(400), amount(0))]), 600),
    ];
    Proposal::new(
        "grant".to_string(),
        "pointer".to_string(),
        "fingerprint".to_string(),
        0,
        vec![],
        vec![policing_ratio, 0, 0],
        ((member_quorum, amount(reputation_quorum)), (threshold, 100, amount(staking_limit))),
        milestones,
        amount(0),
        proposer(),
        0,
        amount(0),
        vec![],
        amount(1000),
    )
    .unwrap()
    .serialize()
}

fn open_grant(threshold: u8) -> Voting {
    Voting::new(10, grant_flat(0, 0, threshold, 1, 20)).unwrap()
}

fn open_governance(quorum: u64, threshold: u64) -> Voting {
    let g = GovernanceProposal::new(
        "change".to_string(),
        ((amount(0), 0, "address".to_string()), (amount(quorum), threshold, 100)),
        amount(0),
        proposer(),
        amount(0),
        vec![],
        "url".to_string(),
        ("update_policing_ratio".to_string(), "30".to_string()),
    )
    .unwrap();
    Voting::new_governance(10, g.serialize()).unwrap()
}

fn vote(v: &mut Voting, who: AccountHash, stake: u64, direction: bool) {
    v.cast_vote(who, 50, amount(1_000_000), amount(stake), amount(0), direction).unwrap();
}

#[test]
fn new_session_is_empty_and_in_vote() {
    let v = open_grant(50);
    assert_eq!(v.start_at(), 10);
    assert_eq!(v.end_at(), 100);
    assert_eq!(v.total_members, 0);
    assert_eq!(v.total_staked_reputation, amount(0));
    assert_eq!(v.for_votes, amount(0));
    assert_eq!(v.against_votes, amount(0));
    assert_eq!(v.input_reputation, amount(0));
    assert!(v.for_voters.is_empty());
    assert!(v.against_voters.is_empty());
    assert_eq!(v.result, VoteResult::InVote);
    assert!(matches!(v.payload, Payload::Grant(_)));
    let g = open_governance(0, 50);
    assert_eq!(g.end_at(), 100);
    assert!(matches!(g.payload, Payload::Governance(_)));
}

#[test]
fn accepted_votes_are_recorded_and_counted() {
    let mut v = open_grant(50);
    vote(&mut v, ali(), 700, true);
    vote(&mut v, bob(), 300, false);
    assert_eq!(v.for_votes, amount(700));
    assert_eq!(v.against_votes, amount(300));
    assert_eq!(v.total_staked_reputation, amount(1000));
    assert_eq!(v.total_members, 2);
    assert_eq!(
        v.for_voters.get(&(0, 1)),
        Some(&VotingData { reputation_staked: amount(700), vote: true, claimed: false })
    );
    assert_eq!(
        v.against_voters.get(&(0, 2)),
        Some(&VotingData { reputation_staked: amount(300), vote: false, claimed: false })
    );
    assert!(!v.for_voters.contains_key(&(0, 2)));
    assert!(!v.against_voters.contains_key(&(0, 1)));
}

#[test]
fn votes_keep_the_accounts() {
    let mut v = open_grant(50);
    let stakes = [5u64, 11, 0, 250, 3, 99];
    for (i, stake) in stakes.iter().enumerate() {
        let who = AccountHash::new(1, i as u128);
        vote(&mut v, who, *stake, i % 2 == 0);
        assert_eq!(v.for_votes.checked_add(&v.against_votes), Some(v.total_staked_reputation));
        for key in v.for_voters.keys() {
            assert!(!v.against_voters.contains_key(key));
        }
    }
    assert_eq!(v.total_members, 6);
    assert_eq!(v.total_staked_reputation, amount(368));
}

#[test]
fn second_vote_of_a_voter_is_refused() {
    let mut v = open_grant(50);
    vote(&mut v, ali(), 700, true);
    let before = v.serialize();
    let r = v.cast_vote(ali(), 50, amount(1_000_000), amount(1), amount(0), false);
    assert_eq!(r, Err(VotingEngineError::AlreadyVoted));
    let r = v.cast_vote(ali(), 50, amount(1_000_000), amount(1), amount(0), true);
    assert_eq!(r, Err(VotingEngineError::AlreadyVoted));
    assert_eq!(v.serialize(), before);
}

#[test]
fn vote_after_the_timeout_is_refused() {
    let mut v = open_grant(50);
    let r = v.cast_vote(ali(), 101, amount(1_000), amount(1), amount(0), true);
    assert_eq!(r, Err(VotingEngineError::VotingEnded));
    // At the timeout itself the vote is still open.
    let r = v.cast_vote(ali(), 100, amount(1_000), amount(1), amount(0), true);
    assert_eq!(r, Ok(()));
}

#[test]
fn vote_on_a_proposal_out_of_full_vote_is_refused() {
    let mut flat = grant_flat(0, 0, 50, 1, 20);
    flat.1 .0 = ProposalStatus::FullVoteComplete.code();
    let mut v = Voting::new(10, flat).unwrap();
    let r = v.cast_vote(ali(), 50, amount(1_000), amount(1), amount(0), true);
    assert_eq!(r, Err(VotingEngineError::VotingNotOngoing));
    assert_eq!(v.total_members, 0);
}

#[test]
fn stake_above_free_balance_is_refused() {
    let mut v = open_grant(50);
    let r = v.cast_vote(ali(), 50, amount(1_000), amount(601), amount(400), true);
    assert_eq!(r, Err(VotingEngineError::InvalidReputationToStake));
    // More committed than owned: nothing is free.
    let r = v.cast_vote(ali(), 50, amount(1_000), amount(0), amount(1_001), true);
    assert_eq!(r, Err(VotingEngineError::InvalidReputationToStake));
    let r = v.cast_vote(ali(), 50, amount(1_000), amount(600), amount(400), true);
    assert_eq!(r, Ok(()));
}

#[test]
fn staking_limit_applies_to_grants() {
    // With a limit of zero, staking the whole balance is too much.
    let mut v = Voting::new(10, grant_flat(0, 0, 50, 0, 20)).unwrap();
    let r = v.cast_vote(ali(), 50, amount(1_000), amount(1_000), amount(0), true);
    assert_eq!(r, Err(VotingEngineError::StakingLimitReached));
    let r = v.cast_vote(ali(), 50, amount(1_000), amount(999), amount(0), true);
    assert_eq!(r, Ok(()));
    // A voter without balance stakes nothing and stays within any limit.
    let r = v.cast_vote(bob(), 50, amount(0), amount(0), amount(0), true);
    assert_eq!(r, Ok(()));
    // With a limit of one, the whole balance may be staked.
    let mut v = Voting::new(10, grant_flat(0, 0, 50, 1, 20)).unwrap();
    let r = v.cast_vote(ali(), 50, amount(1_000), amount(1_000), amount(0), true);
    assert_eq!(r, Ok(()));
}

#[test]
fn refusals_are_checked_in_order() {
    let mut flat = grant_flat(0, 0, 50, 0, 20);
    flat.1 .0 = ProposalStatus::WaitingFullVote.code();
    let mut v = Voting::new(10, flat).unwrap();
    // Late, not in full vote, beyond the balance: the time is reported first.
    let r = v.cast_vote(ali(), 101, amount(10), amount(11), amount(0), true);
    assert_eq!(r, Err(VotingEngineError::VotingEnded));
    let r = v.cast_vote(ali(), 100, amount(10), amount(11), amount(0), true);
    assert_eq!(r, Err(VotingEngineError::VotingNotOngoing));
    let mut v = Voting::new(10, grant_flat(0, 0, 50, 0, 20)).unwrap();
    let r = v.cast_vote(ali(), 100, amount(10), amount(11), amount(0), true);
    assert_eq!(r, Err(VotingEngineError::InvalidReputationToStake));
}

#[test]
fn outcome_waits_for_the_end_of_the_vote() {
    let mut v = open_grant(50);
    vote(&mut v, ali(), 700, true);
    assert_eq!(v.calculate_vote_outcome(99, 10), Err(VotingEngineError::VotingOngoing));
    assert_eq!(v.result, VoteResult::InVote);
    assert_eq!(v.calculate_vote_outcome(100, 10), Ok(VoteResult::Approved));
}

#[test]
fn outcome_needs_a_proposal_in_full_vote() {
    let mut flat = grant_flat(0, 0, 50, 1, 20);
    flat.1 .0 = ProposalStatus::FullVoteComplete.code();
    let mut v = Voting::new(10, flat).unwrap();
    assert_eq!(v.calculate_vote_outcome(100, 10), Err(VotingEngineError::VotingNotOngoing));
    assert_eq!(v.calculate_vote_outcome(99, 10), Err(VotingEngineError::VotingOngoing));
}

#[test]
fn seventy_percent_for_passes_a_threshold_of_fifty() {
    let mut v = open_grant(50);
    vote(&mut v, ali(), 700, true);
    vote(&mut v, bob(), 300, false);
    assert_eq!(v.calculate_vote_outcome(150, 10), Ok(VoteResult::Approved));
    assert_eq!(v.result, VoteResult::Approved);
    // 1000 * 10^16 / (10^12 / 10) = 10^8
    assert_eq!(v.input_reputation, amount(100_000_000));
}

#[test]
fn threshold_must_be_exceeded() {
    let mut v = open_grant(70);
    vote(&mut v, ali(), 700, true);
    vote(&mut v, bob(), 300, false);
    assert_eq!(v.calculate_vote_outcome(150, 10), Ok(VoteResult::PassThresholdUnmet));
    assert_eq!(v.input_reputation, amount(0));
    let mut v = open_grant(69);
    vote(&mut v, ali(), 700, true);
    vote(&mut v, bob(), 300, false);
    assert_eq!(v.calculate_vote_outcome(150, 10), Ok(VoteResult::Approved));
}

#[test]
fn percentage_is_rounded_down() {
    // 2 of 3 votes are 66.67 percent, taken as 66.
    let mut v = open_grant(66);
    vote(&mut v, ali(), 2, true);
    vote(&mut v, bob(), 1, false);
    assert_eq!(v.calculate_vote_outcome(150, 10), Ok(VoteResult::PassThresholdUnmet));
    let mut v = open_grant(65);
    vote(&mut v, ali(), 2, true);
    vote(&mut v, bob(), 1, false);
    assert_eq!(v.calculate_vote_outcome(150, 10), Ok(VoteResult::Approved));
}

#[test]
fn larger_side_against_rejects() {
    let mut v = open_grant(50);
    vote(&mut v, ali(), 300, true);
    vote(&mut v, bob(), 700, false);
    assert_eq!(v.calculate_vote_outcome(150, 10), Ok(VoteResult::Rejected));
    assert_eq!(v.input_reputation, amount(0));
    let mut v = open_grant(70);
    vote(&mut v, ali(), 300, true);
    vote(&mut v, bob(), 700, false);
    assert_eq!(v.calculate_vote_outcome(150, 10), Ok(VoteResult::FailThresholdUnmet));
}

#[test]
fn tie_counts_against() {
    let mut v = open_grant(49);
    vote(&mut v, ali(), 500, true);
    vote(&mut v, bob(), 500, false);
    assert_eq!(v.calculate_vote_outcome(150, 10), Ok(VoteResult::Rejected));
    let mut v = open_grant(50);
    vote(&mut v, ali(), 500, true);
    vote(&mut v, bob(), 500, false);
    assert_eq!(v.calculate_vote_outcome(150, 10), Ok(VoteResult::FailThresholdUnmet));
}

#[test]
fn vote_without_votes_misses_the_threshold() {
    let mut v = open_grant(0);
    assert_eq!(v.calculate_vote_outcome(150, 10), Ok(VoteResult::FailThresholdUnmet));
}

#[test]
fn missed_quorum_ends_the_vote() {
    // Three members are asked for, two have voted.
    let mut v = Voting::new(10, grant_flat(3, 0, 50, 1, 20)).unwrap();
    vote(&mut v, ali(), 700, true);
    vote(&mut v, bob(), 300, false);
    assert_eq!(v.calculate_vote_outcome(150, 10), Ok(VoteResult::MemberQuorumUnmet));
    assert_eq!(v.input_reputation, amount(0));
    // A stake of 1001 is asked for, 1000 is staked.
    let mut v = Voting::new(10, grant_flat(0, 1001, 50, 1, 20)).unwrap();
    vote(&mut v, ali(), 700, true);
    vote(&mut v, bob(), 300, false);
    assert_eq!(v.calculate_vote_outcome(150, 10), Ok(VoteResult::ReputationQuorumUnmet));
    // Both are missed: the reputation quorum is reported.
    let mut v = Voting::new(10, grant_flat(3, 1001, 50, 1, 20)).unwrap();
    vote(&mut v, ali(), 700, true);
    vote(&mut v, bob(), 300, false);
    assert_eq!(v.calculate_vote_outcome(150, 10), Ok(VoteResult::ReputationQuorumUnmet));
    // Both are met exactly.
    let mut v = Voting::new(10, grant_flat(2, 1000, 50, 1, 20)).unwrap();
    vote(&mut v, ali(), 700, true);
    vote(&mut v, bob(), 300, false);
    assert_eq!(v.calculate_vote_outcome(150, 10), Ok(VoteResult::Approved));
}

#[test]
fn outcome_is_the_same_when_computed_again() {
    let mut v = open_grant(50);
    vote(&mut v, ali(), 700, true);
    vote(&mut v, bob(), 300, false);
    let first = v.calculate_vote_outcome(150, 10);
    let after_first = v.serialize();
    let second = v.calculate_vote_outcome(150, 10);
    assert_eq!(first, second);
    assert_eq!(v.serialize(), after_first);
    assert_eq!(v.input_reputation, amount(100_000_000));
}

#[test]
fn input_reputation_follows_the_allocation_ratio() {
    // 10^12 / 3 = 333333333333; 10^19 / 333333333333 = 30000000 (rounded down)
    let mut v = open_grant(50);
    vote(&mut v, ali(), 700, true);
    assert_eq!(v.calculate_vote_outcome(150, 3), Ok(VoteResult::Approved));
    assert_eq!(v.input_reputation, amount(30_000_000));
    // With the largest ratio the divisor is one.
    let mut v = open_grant(50);
    vote(&mut v, ali(), 700, true);
    assert_eq!(v.calculate_vote_outcome(150, 1_000_000_000_000), Ok(VoteResult::Approved));
    assert_eq!(v.input_reputation, amount(10_000_000_000_000_000_000));
}

fn approved_grant() -> Voting {
    let mut v = open_grant(50);
    vote(&mut v, ali(), 500, true);
    vote(&mut v, proposer(), 200, true);
    vote(&mut v, bob(), 300, false);
    assert_eq!(v.calculate_vote_outcome(150, 1_000_000_000_000), Ok(VoteResult::Approved));
    // The pool is 10^19 / 10^12 = 10^7, of which 20 percent are for the policing voters.
    v
}

#[test]
fn voter_for_an_approved_grant_claims_stake_share_and_bonus() {
    let mut v = approved_grant();
    // shares = 500 * 1000 / (10 * 700) = 71; share = 71 * 300 / 100 = 213;
    // bonus = (10^7 * 20 / 100) * 71 / 100 = 1_420_000
    assert_eq!(v.claim_reputation(ali()), Ok(amount(500 + 213 + 1_420_000)));
    assert!(v.for_voters.get(&(0, 1)).unwrap().claimed);
    assert!(!v.for_voters.get(&(0, 7)).unwrap().claimed);
    assert!(!v.against_voters.get(&(0, 2)).unwrap().claimed);
}

#[test]
fn proposer_of_an_approved_grant_claims_the_rest_of_the_pool() {
    let mut v = approved_grant();
    // shares = 200 * 1000 / (10 * 700) = 28; share = 28 * 300 / 100 = 84;
    // bonus = 10^7 * (100 - 20) / 100 = 8_000_000
    assert_eq!(v.claim_reputation(proposer()), Ok(amount(200 + 84 + 8_000_000)));
}

#[test]
fn voter_against_an_approved_grant_gets_no_bonus() {
    let mut v = approved_grant();
    // shares = 300 * 1000 / (10 * 700) = 42; share = 42 * 300 / 100 = 126
    assert_eq!(v.claim_reputation(bob()), Ok(amount(300 + 126)));
    assert!(v.against_voters.get(&(0, 2)).unwrap().claimed);
}

#[test]
fn rejected_grant_pays_no_bonus() {
    let mut v = open_grant(50);
    vote(&mut v, ali(), 300, true);
    vote(&mut v, bob(), 700, false);
    assert_eq!(v.calculate_vote_outcome(150, 10), Ok(VoteResult::Rejected));
    // shares = 700 * 1000 / (10 * 700) = 100; share = 100 * 300 / 100 = 300
    assert_eq!(v.claim_reputation(bob()), Ok(amount(1000)));
    // shares = 300 * 1000 / (10 * 700) = 42; share = 42 * 300 / 100 = 126
    assert_eq!(v.claim_reputation(ali()), Ok(amount(426)));
}

#[test]
fn second_claim_is_refused_and_changes_nothing() {
    let mut v = approved_grant();
    assert!(v.claim_reputation(ali()).is_ok());
    let after_first = v.serialize();
    assert_eq!(v.claim_reputation(ali()), Err(VotingEngineError::ReputationAlreadyClaimed));
    assert_eq!(v.serialize(), after_first);
    assert_eq!(v.for_votes, amount(700));
    assert_eq!(v.against_votes, amount(300));
    assert_eq!(v.total_staked_reputation, amount(1000));
}

#[test]
fn claim_of_someone_who_has_not_voted_is_refused() {
    let mut v = approved_grant();
    assert_eq!(v.claim_reputation(jon()), Err(VotingEngineError::NoReputationToClaim));
}

#[test]
fn claim_needs_a_decided_vote() {
    let mut v = open_grant(50);
    vote(&mut v, ali(), 700, true);
    assert_eq!(v.claim_reputation(ali()), Err(VotingEngineError::VoteFailed));
    let mut v = open_grant(70);
    vote(&mut v, ali(), 700, true);
    vote(&mut v, bob(), 300, false);
    assert_eq!(v.calculate_vote_outcome(150, 10), Ok(VoteResult::PassThresholdUnmet));
    assert_eq!(v.claim_reputation(ali()), Err(VotingEngineError::VoteFailed));
    assert!(!v.for_voters.get(&(0, 1)).unwrap().claimed);
}

#[test]
fn stake_goes_back_after_a_failed_vote() {
    let mut v = open_grant(70);
    vote(&mut v, ali(), 700, true);
    vote(&mut v, bob(), 300, false);
    assert_eq!(v.calculate_vote_outcome(150, 10), Ok(VoteResult::PassThresholdUnmet));
    assert_eq!(v.get_stake(ali()), Ok(amount(700)));
    assert_eq!(v.get_stake(bob()), Ok(amount(300)));
    assert_eq!(v.get_stake(ali()), Err(VotingEngineError::ReputationAlreadyClaimed));
    assert_eq!(v.get_stake(jon()), Err(VotingEngineError::NoReputationToClaim));
    assert!(v.for_voters.get(&(0, 1)).unwrap().claimed);
}

#[test]
fn stake_stays_while_the_vote_has_not_failed() {
    let mut v = open_grant(50);
    vote(&mut v, ali(), 700, true);
    assert_eq!(v.get_stake(ali()), Err(VotingEngineError::VoteDidNotFail));
    assert_eq!(v.calculate_vote_outcome(150, 10), Ok(VoteResult::Approved));
    assert_eq!(v.get_stake(ali()), Err(VotingEngineError::VoteDidNotFail));
    assert!(!v.for_voters.get(&(0, 1)).unwrap().claimed);
}

#[test]
fn every_failed_result_hands_stakes_back() {
    for result in [
        VoteResult::FailCriteriaUnmet,
        VoteResult::MemberQuorumUnmet,
        VoteResult::ReputationQuorumUnmet,
        VoteResult::PassThresholdUnmet,
        VoteResult::FailThresholdUnmet,
    ] {
        let mut v = open_grant(50);
        vote(&mut v, ali(), 700, true);
        v.result = result;
        assert_eq!(v.get_stake(ali()), Ok(amount(700)));
    }
    for result in [VoteResult::InVote, VoteResult::Approved, VoteResult::Rejected] {
        let mut v = open_grant(50);
        vote(&mut v, ali(), 700, true);
        v.result = result;
        assert_eq!(v.get_stake(ali()), Err(VotingEngineError::VoteDidNotFail));
    }
}

#[test]
fn governance_change_is_confirmed_by_a_second_approval() {
    let mut v = open_governance(0, 50);
    vote(&mut v, ali(), 700, true);
    vote(&mut v, bob(), 300, false);
    let change = ("update_policing_ratio".to_string(), "30".to_string());
    assert_eq!(
        v.calculate_governance_vote_outcome(99),
        Err(VotingEngineError::VotingOngoing)
    );
    assert_eq!(
        v.calculate_governance_vote_outcome(100),
        Ok((VoteResult::Approved, (false, change.clone())))
    );
    assert_eq!(v.result, VoteResult::Approved);
    assert_eq!(
        v.calculate_governance_vote_outcome(100),
        Ok((VoteResult::Approved, (true, change.clone())))
    );
    assert_eq!(v.input_reputation, amount(0));
}

#[test]
fn governance_vote_looks_at_quorum_and_threshold() {
    let change = ("update_policing_ratio".to_string(), "30".to_string());
    let mut v = open_governance(1001, 50);
    vote(&mut v, ali(), 700, true);
    vote(&mut v, bob(), 300, false);
    assert_eq!(
        v.calculate_governance_vote_outcome(100),
        Ok((VoteResult::ReputationQuorumUnmet, (false, change.clone())))
    );
    let mut v = open_governance(1000, 70);
    vote(&mut v, ali(), 700, true);
    vote(&mut v, bob(), 300, false);
    assert_eq!(
        v.calculate_governance_vote_outcome(100),
        Ok((VoteResult::PassThresholdUnmet, (false, change.clone())))
    );
    let mut v = open_governance(1000, 50);
    vote(&mut v, ali(), 300, true);
    vote(&mut v, bob(), 700, false);
    assert_eq!(
        v.calculate_governance_vote_outcome(100),
        Ok((VoteResult::Rejected, (false, change.clone())))
    );
}

#[test]
fn governance_vote_pays_stake_and_share_only() {
    let mut v = open_governance(0, 50);
    vote(&mut v, ali(), 700, true);
    vote(&mut v, proposer(), 100, true);
    vote(&mut v, bob(), 200, false);
    assert!(v.calculate_governance_vote_outcome(100).is_ok());
    // shares = 700 * 1000 / (10 * 800) = 87; share = 87 * 200 / 100 = 174
    assert_eq!(v.claim_reputation(ali()), Ok(amount(874)));
    // shares = 100 * 1000 / (10 * 800) = 12; share = 12 * 200 / 100 = 24
    assert_eq!(v.claim_reputation(proposer()), Ok(amount(124)));
}

#[test]
fn governance_vote_has_no_staking_limit() {
    let mut v = open_governance(0, 50);
    let r = v.cast_vote(ali(), 50, amount(1_000), amount(1_000), amount(0), true);
    assert_eq!(r, Ok(()));
}

#[test]
fn session_round_trips() {
    let mut v = approved_grant();
    v.claim_reputation(ali()).unwrap();
    let flat = v.serialize();
    assert_eq!(flat.0 .0, (10, 3, amount(1000)));
    assert!(flat.0 .1 .0.is_some());
    assert!(flat.0 .1 .1.is_none());
    assert_eq!(flat.0 .1 .2, 0);
    assert_eq!(flat.1, (amount(700), amount(300), amount(10_000_000_000_000_000_000)));
    assert_eq!(flat.2 .0.get(&(0, 1)), Some(&(amount(500), true, true)));
    assert_eq!(flat.2 .1.get(&(0, 2)), Some(&(amount(300), false, false)));
    assert_eq!(flat.2 .2, 2);
    assert_eq!(Voting::deserialize(flat), v);

    let mut g = open_governance(0, 50);
    vote(&mut g, ali(), 700, true);
    let flat = g.serialize();
    assert!(flat.0 .1 .0.is_none());
    assert!(flat.0 .1 .1.is_some());
    assert_eq!(flat.0 .1 .2, 1);
    assert_eq!(flat.2 .2, 0);
    assert_eq!(Voting::deserialize(flat), g);
}

#[test]
fn result_codes_round_trip() {
    let all = [
        VoteResult::InVote,
        VoteResult::FailCriteriaUnmet,
        VoteResult::Approved,
        VoteResult::Rejected,
        VoteResult::MemberQuorumUnmet,
        VoteResult::ReputationQuorumUnmet,
        VoteResult::PassThresholdUnmet,
        VoteResult::FailThresholdUnmet,
    ];
    for (i, result) in all.iter().enumerate() {
        assert_eq!(result.code(), i as u8);
        assert_eq!(VoteResult::from_code(i as u8), *result);
    }
    assert_eq!(VoteResult::from_code(8), VoteResult::InVote);
    assert_eq!(VoteResult::from_code(255), VoteResult::InVote);
}
