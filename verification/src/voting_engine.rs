//! The calls of the voting engine, each as one step from what the host has read to what
//! the host is to store and to do.
//!
//! The host keeps the sessions in their flat form under the index of the vote, asks the
//! reputation ledger who is a member and what a member owns, and carries out transfers.
//! A step takes what the host has read and decides. It hands back `None` where a stored
//! session is not one that the engine could have stored, or where a count has left the
//! range of its type: the host has nothing to go on then.
use crate::account::AccountHash;
use crate::custom_types::{GovernanceProposalSerialized, ProposalSerialized, VotingSerialized};
use crate::error::VotingEngineError;
use crate::governance::{change_of_text, decode_parameter, ParameterChange, ParameterError};
use crate::proposal::{GovernanceProposal, Proposal};
use crate::uint::{u256_max, U256};
use crate::voting::{
    input_reputation_defined, is_input_reputation_defined, Payload, PayloadView, VoteResult, Voting,
    VotingView,
};
use vstd::prelude::*;

verus! {

/// Why a call into the voting engine, or into the key management of the ledger, was
/// refused.
#[derive(Clone, Copy, Debug, PartialEq, Eq, Structural)]
pub enum Error {
    UnknownApiCommand,
    PermissionDenied,
    ThresholdViolation,
    MaxKeysLimit,
    DuplicateKey,
    KeyManagementThresholdError,
    DeploymentThresholdError,
    InsufficientTotalWeight,
    MissingArgument0,
    MissingArgument1,
    MissingArgument2,
    InvalidArgument0,
    InvalidArgument1,
    InvalidArgument2,
    UnsupportedNumberOfArguments,
    NotTheAdminAccount,
    ReputationTransferFail,
    VoteDoesNotExist,
    VotingNotStarted,
    VotingEnded,
    VotingOngoing,
    VotingNotOngoing,
    ReputationAlreadyClaimed,
    NoReputationToClaim,
    VoteIsNotApproved,
    VoteDidNotFail,
    VoteFailed,
    NotAMember,
    InvalidReputationToStake,
    StakingLimitReached,
    AlreadyVoted,
    UnknownParameter,
    InvalidParameterValue,
}

impl Error {
    /// The number of the error: 1 to 8 for the key-management errors, 20 to 22 for a
    /// missing argument, 23 to 25 for an invalid one, 30 for an argument beyond the
    /// third, and 31 onwards for the errors of the engine itself.
    pub open spec fn spec_code(self) -> u16 {
        match self {
            Error::UnknownApiCommand => 1,
            Error::PermissionDenied => 2,
            Error::ThresholdViolation => 3,
            Error::MaxKeysLimit => 4,
            Error::DuplicateKey => 5,
            Error::KeyManagementThresholdError => 6,
            Error::DeploymentThresholdError => 7,
            Error::InsufficientTotalWeight => 8,
            Error::MissingArgument0 => 20,
            Error::MissingArgument1 => 21,
            Error::MissingArgument2 => 22,
            Error::InvalidArgument0 => 23,
            Error::InvalidArgument1 => 24,
            Error::InvalidArgument2 => 25,
            Error::UnsupportedNumberOfArguments => 30,
            Error::NotTheAdminAccount => 31,
            Error::ReputationTransferFail => 32,
            Error::VoteDoesNotExist => 33,
            Error::VotingNotStarted => 34,
            Error::VotingEnded => 35,
            Error::VotingOngoing => 36,
            Error::VotingNotOngoing => 37,
            Error::ReputationAlreadyClaimed => 38,
            Error::NoReputationToClaim => 39,
            Error::VoteIsNotApproved => 40,
            Error::VoteDidNotFail => 41,
            Error::VoteFailed => 42,
            Error::NotAMember => 43,
            Error::InvalidReputationToStake => 44,
            Error::StakingLimitReached => 45,
            Error::AlreadyVoted => 46,
            Error::UnknownParameter => 47,
            Error::InvalidParameterValue => 48,
        }
    }

    /// The error for a missing argument at position `i`.
    pub open spec fn spec_missing_argument(i: u32) -> Error {
        if i == 0 {
            Error::MissingArgument0
        } else if i == 1 {
            Error::MissingArgument1
        } else if i == 2 {
            Error::MissingArgument2
        } else {
            Error::UnsupportedNumberOfArguments
        }
    }

    /// The error for an invalid argument at position `i`.
    pub open spec fn spec_invalid_argument(i: u32) -> Error {
        if i == 0 {
            Error::InvalidArgument0
        } else if i == 1 {
            Error::InvalidArgument1
        } else if i == 2 {
            Error::InvalidArgument2
        } else {
            Error::UnsupportedNumberOfArguments
        }
    }

    /// The error under which a refusal of a voting session is reported. A vote that is
    /// not ongoing is reported as a failed vote.
    pub open spec fn spec_from_engine(error: VotingEngineError) -> Error {
        match error {
            VotingEngineError::VotingNotStarted => Error::VotingNotStarted,
            VotingEngineError::VotingEnded => Error::VotingEnded,
            VotingEngineError::VotingOngoing => Error::VotingOngoing,
            VotingEngineError::VotingNotOngoing => Error::VoteFailed,
            VotingEngineError::ReputationAlreadyClaimed => Error::ReputationAlreadyClaimed,
            VotingEngineError::NoReputationToClaim => Error::NoReputationToClaim,
            VotingEngineError::VoteIsNotApproved => Error::VoteIsNotApproved,
            VotingEngineError::VoteDidNotFail => Error::VoteDidNotFail,
            VotingEngineError::VoteFailed => Error::VoteFailed,
            VotingEngineError::InvalidReputationToStake => Error::InvalidReputationToStake,
            VotingEngineError::StakingLimitReached => Error::StakingLimitReached,
            VotingEngineError::AlreadyVoted => Error::AlreadyVoted,
        }
    }

    /// The error under which a parameter change that cannot be read is reported.
    pub open spec fn spec_from_parameter(error: ParameterError) -> Error {
        match error {
            ParameterError::UnknownParameter => Error::UnknownParameter,
            ParameterError::InvalidValue => Error::InvalidParameterValue,
        }
    }

    /// The error under which a parameter change that cannot be read is reported.
    pub fn from_parameter(error: ParameterError) -> (r: Error)
        ensures
            r == Error::spec_from_parameter(error),
    {
        match error {
            ParameterError::UnknownParameter => Error::UnknownParameter,
            ParameterError::InvalidValue => Error::InvalidParameterValue,
        }
    }

    /// The error for a missing argument at position `i`: one of its own for each of the
    /// first three positions, `UnsupportedNumberOfArguments` beyond them.
    pub fn missing_argument(i: u32) -> (r: Error)
        ensures
            r == Error::spec_missing_argument(i),
            i <= 2 ==> r.spec_code() == 20 + i,
            i > 2 ==> r.spec_code() == 30,
    {
        match i {
            0 => Error::MissingArgument0,
            1 => Error::MissingArgument1,
            2 => Error::MissingArgument2,
            _ => Error::UnsupportedNumberOfArguments,
        }
    }

    /// The error for an invalid argument at position `i`: one of its own for each of the
    /// first three positions, `UnsupportedNumberOfArguments` beyond them.
    pub fn invalid_argument(i: u32) -> (r: Error)
        ensures
            r == Error::spec_invalid_argument(i),
            i <= 2 ==> r.spec_code() == 23 + i,
            i > 2 ==> r.spec_code() == 30,
    {
        match i {
            0 => Error::InvalidArgument0,
            1 => Error::InvalidArgument1,
            2 => Error::InvalidArgument2,
            _ => Error::UnsupportedNumberOfArguments,
        }
    }

    /// The number of the error.
    pub fn code(&self) -> (r: u16)
        ensures
            r == self.spec_code(),
    {
        match self {
            Error::UnknownApiCommand => 1,
            Error::PermissionDenied => 2,
            Error::ThresholdViolation => 3,
            Error::MaxKeysLimit => 4,
            Error::DuplicateKey => 5,
            Error::KeyManagementThresholdError => 6,
            Error::DeploymentThresholdError => 7,
            Error::InsufficientTotalWeight => 8,
            Error::MissingArgument0 => 20,
            Error::MissingArgument1 => 21,
            Error::MissingArgument2 => 22,
            Error::InvalidArgument0 => 23,
            Error::InvalidArgument1 => 24,
            Error::InvalidArgument2 => 25,
            Error::UnsupportedNumberOfArguments => 30,
            Error::NotTheAdminAccount => 31,
            Error::ReputationTransferFail => 32,
            Error::VoteDoesNotExist => 33,
            Error::VotingNotStarted => 34,
            Error::VotingEnded => 35,
            Error::VotingOngoing => 36,
            Error::VotingNotOngoing => 37,
            Error::ReputationAlreadyClaimed => 38,
            Error::NoReputationToClaim => 39,
            Error::VoteIsNotApproved => 40,
            Error::VoteDidNotFail => 41,
            Error::VoteFailed => 42,
            Error::NotAMember => 43,
            Error::InvalidReputationToStake => 44,
            Error::StakingLimitReached => 45,
            Error::AlreadyVoted => 46,
            Error::UnknownParameter => 47,
            Error::InvalidParameterValue => 48,
        }
    }

    /// The error under which a refusal of a voting session is reported.
    pub fn from_engine(error: VotingEngineError) -> (r: Error)
        ensures
            r == Error::spec_from_engine(error),
    {
        match error {
            VotingEngineError::VotingNotStarted => Error::VotingNotStarted,
            VotingEngineError::VotingEnded => Error::VotingEnded,
            VotingEngineError::VotingOngoing => Error::VotingOngoing,
            VotingEngineError::VotingNotOngoing => Error::VoteFailed,
            VotingEngineError::ReputationAlreadyClaimed => Error::ReputationAlreadyClaimed,
            VotingEngineError::NoReputationToClaim => Error::NoReputationToClaim,
            VotingEngineError::VoteIsNotApproved => Error::VoteIsNotApproved,
            VotingEngineError::VoteDidNotFail => Error::VoteDidNotFail,
            VotingEngineError::VoteFailed => Error::VoteFailed,
            VotingEngineError::InvalidReputationToStake => Error::InvalidReputationToStake,
            VotingEngineError::StakingLimitReached => Error::StakingLimitReached,
            VotingEngineError::AlreadyVoted => Error::AlreadyVoted,
        }
    }

    /// No two errors share a number.
    pub proof fn lemma_codes_distinct(a: Error, b: Error)
        ensures
            a.spec_code() == b.spec_code() <==> a == b,
    {
    }
}

/// What the host stores after a vote was cast.
#[derive(Debug, PartialEq, Eq)]
pub struct VoteCast {
    /// The session with the vote in it.
    pub session: VotingSerialized,
    /// What the voter has committed to open votes after this one.
    pub committed_reputation: U256,
}

/// What the host stores and does after the outcome of a vote was computed.
#[derive(Debug, PartialEq, Eq)]
pub struct OutcomeComputed {
    /// The code of the outcome.
    pub outcome: u8,
    /// The session with the outcome in it.
    pub session: VotingSerialized,
    /// The parameter change to apply now, if there is one.
    pub change: Option<ParameterChange>,
}

/// What the host stores and does after a claim.
#[derive(Debug, PartialEq, Eq)]
pub struct ReputationClaimed {
    /// The session with the claim in it.
    pub session: VotingSerialized,
    /// What the ledger is to transfer to the claimant, if anything.
    pub transfer: Option<U256>,
}

/// Whether a stored session can be voted on: it holds its proposal and is well formed.
pub open spec fn can_cast(stored: VotingSerialized) -> bool {
    &&& Voting::holds_payload(stored)
    &&& Voting::spec_deserialize(stored).wf()
}

/// Whether the outcome of a stored session can be computed at this time under this
/// allocation ratio.
pub open spec fn can_compute(
    stored: VotingSerialized,
    current_time: u64,
    reputation_allocation_ratio: u64,
) -> bool {
    let v = Voting::spec_deserialize(stored);
    Voting::holds_payload(stored) && v.tally_fits() && match v.payload {
        PayloadView::Grant(p) => (v.outcome_refusal(current_time) is None && v.grant_outcome()
            == VoteResult::Approved) ==> input_reputation_defined(
            p.cost@,
            reputation_allocation_ratio as nat,
        ),
        PayloadView::Governance(_) => true,
    }
}

/// Whether a stored session can be settled: it holds its proposal, it is well formed,
/// its percentages fit and its result agrees with its votes.
pub open spec fn can_settle(stored: VotingSerialized) -> bool {
    let v = Voting::spec_deserialize(stored);
    Voting::holds_payload(stored) && v.wf() && v.tally_fits() && v.result_agrees()
}

/// Admits the caller where the caller is one of the two administrators of the
/// organisation, the failsafe account or the compliance account.
pub fn assert_admin(caller: AccountHash, failsafe: AccountHash, compliance: AccountHash) -> (r:
    Result<(), Error>)
    ensures
        r is Ok <==> caller == failsafe || caller == compliance,
        r is Err ==> r == Err::<(), Error>(Error::NotTheAdminAccount),
{
    if caller.same(&failsafe) || caller.same(&compliance) {
        Ok(())
    } else {
        Err(Error::NotTheAdminAccount)
    }
}

/// Admits the caller where the reputation ledger knows the caller as a member.
pub fn assert_member(is_member: bool) -> (r: Result<(), Error>)
    ensures
        r is Ok <==> is_member,
        r is Err ==> r == Err::<(), Error>(Error::NotAMember),
{
    if is_member {
        Ok(())
    } else {
        Err(Error::NotAMember)
    }
}

/// Admits the caller where the caller is the account that the call is reserved for.
pub fn assert_caller(caller: AccountHash, authorized_account: AccountHash) -> (r: Result<(), Error>)
    ensures
        r is Ok <==> caller == authorized_account,
        r is Err ==> r == Err::<(), Error>(Error::NotTheAdminAccount),
{
    if caller.same(&authorized_account) {
        Ok(())
    } else {
        Err(Error::NotTheAdminAccount)
    }
}

/// Opens the vote on a grant proposal at `current_time`: hands back the session to store
/// under `vote_count` and the count of votes after it, or `None` where the count cannot
/// grow.
pub fn new_vote(current_time: u64, vote_count: U256, proposal: ProposalSerialized) -> (r: Option<
    (VotingSerialized, U256),
>)
    ensures
        match r {
            Some((session, next_count)) => {
                &&& next_count@ == vote_count@ + 1
                &&& Voting::is_serialized(
                    VotingView::initial(
                        current_time,
                        PayloadView::Grant(Proposal::spec_deserialize(proposal)),
                    ),
                    session,
                )
            },
            None => vote_count@ == u256_max(),
        },
{
    let next_count = match vote_count.checked_add(&U256::from_u64(1)) {
        Some(next_count) => next_count,
        None => {
            proof {
                vote_count.lemma_bounded();
            }
            return None;
        },
    };
    match Voting::new(current_time, proposal) {
        Ok(vote) => Some((vote.serialize(), next_count)),
        Err(_) => unreached(),
    }
}

/// Opens the vote on a governance proposal at `current_time`: hands back the session to
/// store under `vote_count` and the count of votes after it, or `None` where the count
/// cannot grow.
pub fn new_governance_vote(
    current_time: u64,
    vote_count: U256,
    governance_proposal: GovernanceProposalSerialized,
) -> (r: Option<(VotingSerialized, U256)>)
    ensures
        match r {
            Some((session, next_count)) => {
                &&& next_count@ == vote_count@ + 1
                &&& Voting::is_serialized(
                    VotingView::initial(
                        current_time,
                        PayloadView::Governance(
                            GovernanceProposal::spec_deserialize(governance_proposal),
                        ),
                    ),
                    session,
                )
            },
            None => vote_count@ == u256_max(),
        },
{
    let next_count = match vote_count.checked_add(&U256::from_u64(1)) {
        Some(next_count) => next_count,
        None => {
            proof {
                vote_count.lemma_bounded();
            }
            return None;
        },
    };
    match Voting::new_governance(current_time, governance_proposal) {
        Ok(vote) => Some((vote.serialize(), next_count)),
        Err(_) => unreached(),
    }
}

/// Casts the vote of `caller` on a stored session.
///
/// A caller who is no member is refused with `NotAMember`, a vote that is not stored
/// with `VoteDoesNotExist`, and a vote that the session refuses with the error of the
/// session. An accepted vote hands back the session with the vote in it and the voter's
/// commitment, grown by the stake.
pub fn cast_vote(
    is_member: bool,
    stored: Option<VotingSerialized>,
    caller: AccountHash,
    current_time: u64,
    reputation_balance: U256,
    reputation_to_stake: U256,
    committed_reputation: U256,
    vote_direction: bool,
) -> (r: Option<Result<VoteCast, Error>>)
    ensures
        !is_member ==> r == Some(Err::<VoteCast, Error>(Error::NotAMember)),
        is_member && stored is None ==> r == Some(Err::<VoteCast, Error>(Error::VoteDoesNotExist)),
        is_member && stored is Some ==> {
            let flat = stored->Some_0;
            let v = Voting::spec_deserialize(flat);
            let refusal = v.cast_vote_refusal(
                caller,
                current_time,
                reputation_balance@,
                reputation_to_stake@,
                committed_reputation@,
            );
            match r {
                None => !can_cast(flat) || (refusal is None && !v.vote_fits(reputation_to_stake@)),
                Some(Err(e)) => {
                    &&& can_cast(flat)
                    &&& refusal matches Some(refused)
                    &&& e == Error::spec_from_engine(refused)
                },
                Some(Ok(done)) => {
                    &&& can_cast(flat)
                    &&& refusal is None
                    &&& Voting::is_serialized(
                        v.after_cast_vote(caller, reputation_to_stake, vote_direction),
                        done.session,
                    )
                    &&& done.committed_reputation@ == committed_reputation@ + reputation_to_stake@
                },
            }
        },
{
    if !is_member {
        return Some(Err(Error::NotAMember));
    }
    let flat = match stored {
        Some(flat) => flat,
        None => {
            return Some(Err(Error::VoteDoesNotExist));
        },
    };
    if !Voting::can_deserialize(&flat) {
        return None;
    }
    let mut vote = Voting::deserialize(flat);
    if !vote.is_well_formed() {
        return None;
    }
    let accepted = vote.cast_vote_refusal(
        &caller,
        current_time,
        &reputation_balance,
        &reputation_to_stake,
        &committed_reputation,
    ).is_none();
    if accepted && !vote.vote_fits(&reputation_to_stake) {
        return None;
    }
    proof {
        // An accepted stake is within the balance, so the commitment stays in range.
        reputation_balance.lemma_bounded();
    }
    match vote.cast_vote(
        caller,
        current_time,
        reputation_balance,
        reputation_to_stake,
        committed_reputation,
        vote_direction,
    ) {
        Ok(()) => {
            let committed = committed_reputation.add(&reputation_to_stake);
            Some(Ok(VoteCast { session: vote.serialize(), committed_reputation: committed }))
        },
        Err(e) => Some(Err(Error::from_engine(e))),
    }
}

/// Computes the outcome of a stored session at `current_time`.
///
/// A vote that is not stored is refused with `VoteDoesNotExist`, and a vote whose
/// outcome the session does not compute yet with the error of the session. Otherwise the
/// outcome is handed back with the session to store. A governance proposal that is
/// confirmed hands back its parameter change as well; where the change cannot be read,
/// the call is refused with `UnknownParameter` or `InvalidParameterValue`.
pub fn calculate_vote_outcome(
    stored: Option<VotingSerialized>,
    current_time: u64,
    reputation_allocation_ratio: u64,
) -> (r: Option<Result<OutcomeComputed, Error>>)
    ensures
        stored is None ==> r == Some(Err::<OutcomeComputed, Error>(Error::VoteDoesNotExist)),
        stored is Some ==> {
            let flat = stored->Some_0;
            let v = Voting::spec_deserialize(flat);
            let refusal = v.outcome_refusal(current_time);
            match r {
                None => !can_compute(flat, current_time, reputation_allocation_ratio),
                Some(Err(e)) => {
                    &&& can_compute(flat, current_time, reputation_allocation_ratio)
                    &&& match refusal {
                        Some(refused) => e == Error::spec_from_engine(refused),
                        None => {
                            &&& v.payload matches PayloadView::Governance(g)
                            &&& v.governance_outcome() == VoteResult::Approved
                            &&& v.result == VoteResult::Approved
                            &&& change_of_text(
                                g.new_variable_key_value.0,
                                g.new_variable_key_value.1,
                            ) matches Err(unreadable)
                            &&& e == Error::spec_from_parameter(unreadable)
                        },
                    }
                },
                Some(Ok(done)) => {
                    &&& can_compute(flat, current_time, reputation_allocation_ratio)
                    &&& refusal is None
                    &&& match v.payload {
                        PayloadView::Grant(_) => {
                            &&& done.outcome == v.grant_outcome().spec_code()
                            &&& Voting::is_serialized(
                                v.after_grant_outcome(reputation_allocation_ratio),
                                done.session,
                            )
                            &&& done.change is None
                        },
                        PayloadView::Governance(g) => {
                            &&& done.outcome == v.governance_outcome().spec_code()
                            &&& Voting::is_serialized(
                                (VotingView { result: v.governance_outcome(), ..v }),
                                done.session,
                            )
                            &&& if v.governance_outcome() == VoteResult::Approved && v.result
                                == VoteResult::Approved {
                                change_of_text(
                                    g.new_variable_key_value.0,
                                    g.new_variable_key_value.1,
                                ) == Ok::<ParameterChange, ParameterError>(
                                    done.change->Some_0,
                                ) && done.change is Some
                            } else {
                                done.change is None
                            }
                        },
                    }
                },
            }
        },
{
    let flat = match stored {
        Some(flat) => flat,
        None => {
            return Some(Err(Error::VoteDoesNotExist));
        },
    };
    if !Voting::can_deserialize(&flat) {
        return None;
    }
    let mut vote = Voting::deserialize(flat);
    if !vote.tally_fits() {
        return None;
    }
    match &vote.payload {
        Payload::Grant(proposal) => {
            let cost = proposal.cost;
            if vote.outcome_refusal(current_time).is_none() && vote.grant_outcome()
                == VoteResult::Approved && !is_input_reputation_defined(
                &cost,
                reputation_allocation_ratio,
            ) {
                return None;
            }
            match vote.calculate_vote_outcome(current_time, reputation_allocation_ratio) {
                Ok(outcome) => Some(
                    Ok(
                        OutcomeComputed {
                            outcome: outcome.code(),
                            session: vote.serialize(),
                            change: None,
                        },
                    ),
                ),
                Err(e) => Some(Err(Error::from_engine(e))),
            }
        },
        Payload::Governance(_) => {
            match vote.calculate_governance_vote_outcome(current_time) {
                Ok((outcome, (executed, (name, value)))) => {
                    let change = if executed {
                        match decode_parameter(name.as_str(), value.as_str()) {
                            Ok(change) => Some(change),
                            Err(e) => {
                                return Some(Err(Error::from_parameter(e)));
                            },
                        }
                    } else {
                        None
                    };
                    Some(
                        Ok(
                            OutcomeComputed {
                                outcome: outcome.code(),
                                session: vote.serialize(),
                                change,
                            },
                        ),
                    )
                },
                Err(e) => Some(Err(Error::from_engine(e))),
            }
        },
    }
}

/// Settles the claim of `caller` on a stored session.
///
/// A caller who is no member is refused with `NotAMember`, a vote that is not stored
/// with `VoteDoesNotExist`, and a claim that the session refuses with the error of the
/// session. Otherwise the session is handed back with the claim in it, and the
/// entitlement is to be transferred to the claimant where it is not zero.
pub fn claim_reputation(is_member: bool, stored: Option<VotingSerialized>, caller: AccountHash) -> (r:
    Option<Result<ReputationClaimed, Error>>)
    ensures
        !is_member ==> r == Some(Err::<ReputationClaimed, Error>(Error::NotAMember)),
        is_member && stored is None ==> r == Some(
            Err::<ReputationClaimed, Error>(Error::VoteDoesNotExist),
        ),
        is_member && stored is Some ==> {
            let flat = stored->Some_0;
            let v = Voting::spec_deserialize(flat);
            match r {
                None => !can_settle(flat),
                Some(Err(e)) => {
                    &&& can_settle(flat)
                    &&& v.claim_refusal(caller) matches Some(refused)
                    &&& e == Error::spec_from_engine(refused)
                },
                Some(Ok(done)) => {
                    let entitlement = v.entitlement(caller, v.record_of(caller)->Some_0);
                    &&& can_settle(flat)
                    &&& v.claim_refusal(caller) is None
                    &&& Voting::is_serialized(v.after_claim(caller), done.session)
                    &&& match done.transfer {
                        Some(amount) => amount@ == entitlement && entitlement > 0,
                        None => entitlement == 0,
                    }
                },
            }
        },
{
    if !is_member {
        return Some(Err(Error::NotAMember));
    }
    let flat = match stored {
        Some(flat) => flat,
        None => {
            return Some(Err(Error::VoteDoesNotExist));
        },
    };
    if !Voting::can_deserialize(&flat) {
        return None;
    }
    let mut vote = Voting::deserialize(flat);
    if !vote.is_well_formed() || !vote.tally_fits() || !vote.result_agrees() {
        return None;
    }
    match vote.claim_reputation(caller) {
        Ok(gained_reputation) => {
            let transfer = if gained_reputation.is_zero() {
                None
            } else {
                Some(gained_reputation)
            };
            Some(Ok(ReputationClaimed { session: vote.serialize(), transfer }))
        },
        Err(e) => Some(Err(Error::from_engine(e))),
    }
}

} // verus!
