//! The flat forms in which proposals, voting sessions and projects are stored: nested
//! tuples of integers, strings, lists and ordered maps, with every enum given as its code.
use crate::uint::U256;
use std::collections::BTreeMap;
use vstd::prelude::*;

verus! {

/// A funding tranche: type, amount, reputation allocation.
pub type FundingTrancheSerialized = (u8, U256, U256);

/// A milestone: (type, progress percentage, result), then (tranches by index, tranche
/// count, timeout).
pub type MilestoneSerialized = (
    (u8, u8, u8),
    (BTreeMap<u64, FundingTrancheSerialized>, u64, u64),
);

/// The milestones of a proposal by index.
pub type MilestonesSerialized = BTreeMap<u64, MilestoneSerialized>;

/// The pledged amount of each sponsor, by the key of the sponsor's account.
pub type SponsorsSerialized = BTreeMap<(u128, u128), U256>;

/// Policing ratio, OP ratio, citation ratio.
pub type RatiosSerialized = [u8; 3];

/// (member quorum, reputation quorum), then (threshold, timeout, voter staking limit).
pub type VoteConfigurationSerialized = ((u64, U256), (u8, u64, U256));

/// A grant proposal.
pub type ProposalSerialized = (
    (
        // name, storage pointer, storage fingerprint
        (String, String, String),
        // proposal type, proposer, citations
        (u8, (u128, u128), Vec<u64>),
        (RatiosSerialized, VoteConfigurationSerialized, MilestonesSerialized),
    ),
    // proposal status, sponsors, cost
    (u8, SponsorsSerialized, U256),
);

/// (transition-vote quorum, transition-vote threshold, repository address), then
/// (full-vote quorum, full-vote threshold, timeout).
pub type GovernanceVoteConfigurationSerialized = ((U256, u64, String), (U256, u64, u64));

/// A governance proposal.
pub type GovernanceProposalSerialized = (
    // name, repository url, proposer
    (String, String, (u128, u128)),
    // sponsors, proposal type, vote configuration
    (SponsorsSerialized, u8, GovernanceVoteConfigurationSerialized),
    // proposal status, (parameter name, new value)
    (u8, (String, String)),
);

/// The record of one voter: stake, direction, claimed.
pub type VotingDataSerialized = (U256, bool, bool);

/// The voters of one side, by the key of the voter's account.
pub type VotersSerialized = BTreeMap<(u128, u128), VotingDataSerialized>;

/// A voting session.
pub type VotingSerialized = (
    (
        // start, members, staked reputation
        (u64, u64, U256),
        // the proposal voted on, as a grant or as a governance proposal, and its type
        (Option<ProposalSerialized>, Option<GovernanceProposalSerialized>, u8),
    ),
    // votes for, votes against, input reputation
    (U256, U256, U256),
    // voters for, voters against, result
    (VotersSerialized, VotersSerialized, u8),
);

/// The analysis of a milestone: whether it is favorable, and its recommendations.
pub type MilestoneAnalysisSerialized = (bool, Vec<(String, String)>);

/// A project: (proposal, active milestone), then (status, claimed milestones, analyses
/// by the key of the index of their vote).
pub type ProjectSerialized = (
    (ProposalSerialized, u64),
    (u8, Vec<MilestoneSerialized>, BTreeMap<(u64, u64, u64, u64), MilestoneAnalysisSerialized>),
);

} // verus!
