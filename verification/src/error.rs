//! What the operations of the engine report when they refuse an input.
use vstd::prelude::*;

verus! {

/// A voting period whose start is not before its end.
#[derive(Clone, Copy, Debug, PartialEq, Eq, Structural)]
pub struct StartNotBeforeEnd;

/// Why a voting session refused an operation.
#[derive(Clone, Copy, Debug, PartialEq, Eq, Structural)]
pub enum VotingEngineError {
    VotingNotStarted,
    VotingEnded,
    VotingOngoing,
    VotingNotOngoing,
    ReputationAlreadyClaimed,
    NoReputationToClaim,
    VoteIsNotApproved,
    VoteDidNotFail,
    VoteFailed,
    InvalidReputationToStake,
    StakingLimitReached,
    AlreadyVoted,
}

/// Why a vote on a project was refused.
#[derive(Clone, Copy, Debug, PartialEq, Eq, Structural)]
pub enum VotingError {
    NotEnoughVotingPower,
    ProjectDoesNotExists,
    NotAParticipant,
    VotingNotStarted,
    VotingEnded,
}

/// Why a proposal could not be built.
#[derive(Clone, Copy, Debug, PartialEq, Eq, Structural)]
pub enum ProposalError {
    InvalidPolicingRatio,
    InvalidCategory,
    StakedRepGreaterThanReputationBalance,
    ProjectCostNotEqualToMilestonesSum,
    InvalidMilestonesProgressPercentages,
}

/// A voting power that was lowered below what its holder has already used.
#[derive(Clone, Copy, Debug, PartialEq, Eq, Structural)]
pub struct NewVotingPowerBelowUsed;

} // verus!
