//! The calls of the proposal engine, each as one step from what the host has read to
//! what the host is to store and to do.
//!
//! The host asks the reputation ledger whether the caller is a member and what the
//! caller owns, keeps the proposals in their flat form, moves the proposer's stake to
//! the voting engine and has the voting engine open the vote.
use crate::account::AccountHash;
use crate::custom_types::{
    GovernanceProposalSerialized, GovernanceVoteConfigurationSerialized, ProposalSerialized,
    VoteConfigurationSerialized,
};
use crate::error::ProposalError;
use crate::proposal::{grant_refusal, GovernanceProposal, MilestoneInput, Proposal};
use crate::uint::U256;
use vstd::prelude::*;

verus! {

/// Why a call into the proposal engine or the execution engine was refused.
#[derive(Clone, Copy, Debug, PartialEq, Eq, Structural)]
pub enum Error {
    NotTheAdminAccount,
    InvalidPolicingRatio,
    NotAMember,
    InvalidCategory,
    InvalidMilestonesProgressPercentages,
    ProjectCostNotEqualToMilestonesSum,
    StakedRepGreaterThanReputationBalance,
    InvalidVotingContractAddress,
}

/// The stages that a proposal passes through in the organisation.
#[derive(Clone, Copy, Debug, PartialEq, Eq, Structural)]
pub enum ProposalStatus {
    Accepted,
    TransitionVote,
    FullVote,
    Withdrawn,
    Rejected,
    Discussion,
    PendingApproval,
}

/// The kinds of proposals that the organisation knows.
#[derive(Clone, Copy, Debug, PartialEq, Eq, Structural)]
pub enum ProposalType {
    Signaling,
    Grant,
    Internal,
    External,
}

impl Error {
    /// The number of the error, counted from zero in the order of the variants.
    pub open spec fn spec_code(self) -> u16 {
        match self {
            Error::NotTheAdminAccount => 0,
            Error::InvalidPolicingRatio => 1,
            Error::NotAMember => 2,
            Error::InvalidCategory => 3,
            Error::InvalidMilestonesProgressPercentages => 4,
            Error::ProjectCostNotEqualToMilestonesSum => 5,
            Error::StakedRepGreaterThanReputationBalance => 6,
            Error::InvalidVotingContractAddress => 7,
        }
    }

    /// The error under which a refused proposal is reported: the one of the same name.
    pub open spec fn spec_from_proposal(error: ProposalError) -> Error {
        match error {
            ProposalError::InvalidCategory => Error::InvalidCategory,
            ProposalError::InvalidPolicingRatio => Error::InvalidPolicingRatio,
            ProposalError::InvalidMilestonesProgressPercentages => {
                Error::InvalidMilestonesProgressPercentages
            },
            ProposalError::ProjectCostNotEqualToMilestonesSum => {
                Error::ProjectCostNotEqualToMilestonesSum
            },
            ProposalError::StakedRepGreaterThanReputationBalance => {
                Error::StakedRepGreaterThanReputationBalance
            },
        }
    }

    /// The number of the error.
    pub fn code(&self) -> (r: u16)
        ensures
            r == self.spec_code(),
    {
        match self {
            Error::NotTheAdminAccount => 0,
            Error::InvalidPolicingRatio => 1,
            Error::NotAMember => 2,
            Error::InvalidCategory => 3,
            Error::InvalidMilestonesProgressPercentages => 4,
            Error::ProjectCostNotEqualToMilestonesSum => 5,
            Error::StakedRepGreaterThanReputationBalance => 6,
            Error::InvalidVotingContractAddress => 7,
        }
    }

    /// The error under which a refused proposal is reported.
    pub fn from_proposal(error: ProposalError) -> (r: Error)
        ensures
            r == Error::spec_from_proposal(error),
    {
        match error {
            ProposalError::InvalidCategory => Error::InvalidCategory,
            ProposalError::InvalidPolicingRatio => Error::InvalidPolicingRatio,
            ProposalError::InvalidMilestonesProgressPercentages => {
                Error::InvalidMilestonesProgressPercentages
            },
            ProposalError::ProjectCostNotEqualToMilestonesSum => {
                Error::ProjectCostNotEqualToMilestonesSum
            },
            ProposalError::StakedRepGreaterThanReputationBalance => {
                Error::StakedRepGreaterThanReputationBalance
            },
        }
    }
}

impl ProposalStatus {
    /// The number of the stage, counted from zero in the order of the variants.
    pub fn code(&self) -> (r: u16)
        ensures
            r == match self {
                ProposalStatus::Accepted => 0u16,
                ProposalStatus::TransitionVote => 1u16,
                ProposalStatus::FullVote => 2u16,
                ProposalStatus::Withdrawn => 3u16,
                ProposalStatus::Rejected => 4u16,
                ProposalStatus::Discussion => 5u16,
                ProposalStatus::PendingApproval => 6u16,
            },
    {
        match self {
            ProposalStatus::Accepted => 0,
            ProposalStatus::TransitionVote => 1,
            ProposalStatus::FullVote => 2,
            ProposalStatus::Withdrawn => 3,
            ProposalStatus::Rejected => 4,
            ProposalStatus::Discussion => 5,
            ProposalStatus::PendingApproval => 6,
        }
    }
}

impl ProposalType {
    /// The number of the kind, counted from zero in the order of the variants.
    pub fn code(&self) -> (r: u16)
        ensures
            r == match self {
                ProposalType::Signaling => 0u16,
                ProposalType::Grant => 1u16,
                ProposalType::Internal => 2u16,
                ProposalType::External => 3u16,
            },
    {
        match self {
            ProposalType::Signaling => 0,
            ProposalType::Grant => 1,
            ProposalType::Internal => 2,
            ProposalType::External => 3,
        }
    }
}

/// Admits the caller where the caller is one of the two administrators of the
/// organisation, the failsafe account or the compliance account.
pub fn assert_admin(caller: AccountHash, failsafe: AccountHash, compliance: AccountHash) -> (r:
    Result<(), Error>)
    ensures
        r is Ok <==> caller == failsafe || caller == compliance,
        r is Err ==> r == Err::<(), Error>(Error::NotTheAdminAccount),
{
    if caller.same(&failsafe) || caller.same(&compliance) {
        Ok(())
    } else {
        Err(Error::NotTheAdminAccount)
    }
}

/// Admits the caller where the caller is the account that the call is reserved for.
pub fn assert_caller(caller: AccountHash, authorized_account: AccountHash) -> (r: Result<(), Error>)
    ensures
        r is Ok <==> caller == authorized_account,
        r is Err ==> r == Err::<(), Error>(Error::NotTheAdminAccount),
{
    if caller.same(&authorized_account) {
        Ok(())
    } else {
        Err(Error::NotTheAdminAccount)
    }
}

/// Who may set the address of the voting engine: the deployer until it has been set
/// once, the voting engine itself from then on.
pub fn authorize_voting_contract_update(
    voting_contract_changed: bool,
    caller: AccountHash,
    deployer: AccountHash,
    voting_contract_address: AccountHash,
) -> (r: Result<(), Error>)
    ensures
        r is Ok <==> caller == (if voting_contract_changed {
            voting_contract_address
        } else {
            deployer
        }),
        r is Err ==> r == Err::<(), Error>(Error::NotTheAdminAccount),
{
    if voting_contract_changed {
        assert_caller(caller, voting_contract_address)
    } else {
        assert_caller(caller, deployer)
    }
}

/// What the host stores and does after a proposal was created.
#[derive(Debug, PartialEq, Eq)]
pub struct ProposalCreated {
    /// The proposal, to store and to hand to the voting engine.
    pub proposal: ProposalSerialized,
    /// What the ledger is to move from the proposer to the voting engine.
    pub staked_rep: U256,
}

/// What the host stores and does after a governance proposal was created.
#[derive(Debug, PartialEq, Eq)]
pub struct GovernanceProposalCreated {
    /// The proposal, to store and to hand to the voting engine.
    pub proposal: GovernanceProposalSerialized,
    /// What the ledger is to move from the proposer to the voting engine.
    pub staked_rep: U256,
}

/// Why the engine refuses to create a grant proposal, if it does: the voting engine has
/// not been set; the caller is no member; the proposal itself is refused.
pub open spec fn creation_refusal(
    voting_contract_changed: bool,
    is_member: bool,
    proposal_refusal: Option<ProposalError>,
) -> Option<Error> {
    if !voting_contract_changed {
        Some(Error::InvalidVotingContractAddress)
    } else if !is_member {
        Some(Error::NotAMember)
    } else {
        match proposal_refusal {
            Some(e) => Some(Error::spec_from_proposal(e)),
            None => None,
        }
    }
}

/// Creates the grant proposal of `caller`, who owns `reputation_balance`, under the
/// policing ratio that the organisation asks for.
///
/// The call is refused with `InvalidVotingContractAddress` until the voting engine has
/// been set, with `NotAMember` for a caller who is no member, and with the error of the
/// same name where the proposal is refused. `None` is handed back for fewer than three
/// ratios.
pub fn create_proposal(
    voting_contract_changed: bool,
    is_member: bool,
    caller: AccountHash,
    reputation_balance: U256,
    system_policing_ratio: u8,
    name: String,
    storage_pointer: String,
    storage_fingerprint: String,
    category: u8,
    citations: Vec<u64>,
    ratios: Vec<u8>,
    vote_configuration: VoteConfigurationSerialized,
    milestones: Vec<MilestoneInput>,
    staked_rep: U256,
    sponsors: Vec<(AccountHash, U256)>,
    cost: U256,
) -> (r: Option<Result<ProposalCreated, Error>>)
    ensures
        !voting_contract_changed ==> r == Some(
            Err::<ProposalCreated, Error>(Error::InvalidVotingContractAddress),
        ),
        voting_contract_changed && !is_member ==> r == Some(
            Err::<ProposalCreated, Error>(Error::NotAMember),
        ),
        voting_contract_changed && is_member ==> match r {
            None => ratios@.len() < 3,
            Some(Err(e)) => ratios@.len() >= 3 && Some(e) == creation_refusal(
                voting_contract_changed,
                is_member,
                grant_refusal(
                    category,
                    ratios@,
                    milestones@,
                    staked_rep,
                    system_policing_ratio,
                    reputation_balance,
                    cost,
                ),
            ),
            Some(Ok(done)) => {
                &&& ratios@.len() >= 3
                &&& grant_refusal(
                    category,
                    ratios@,
                    milestones@,
                    staked_rep,
                    system_policing_ratio,
                    reputation_balance,
                    cost,
                ) is None
                &&& Proposal::is_serialized(
                    Proposal::spec_new(
                        name@,
                        storage_pointer@,
                        storage_fingerprint@,
                        citations@,
                        ratios@,
                        vote_configuration,
                        milestones@,
                        caller,
                        sponsors@,
                        cost,
                    ),
                    done.proposal,
                )
                &&& done.staked_rep == staked_rep
            },
        },
{
    if !voting_contract_changed {
        return Some(Err(Error::InvalidVotingContractAddress));
    }
    if !is_member {
        return Some(Err(Error::NotAMember));
    }
    if ratios.len() < 3 {
        return None;
    }
    match Proposal::new(
        name,
        storage_pointer,
        storage_fingerprint,
        category,
        citations,
        ratios,
        vote_configuration,
        milestones,
        staked_rep,
        caller,
        system_policing_ratio,
        reputation_balance,
        sponsors,
        cost,
    ) {
        Ok(proposal) => Some(Ok(ProposalCreated { proposal: proposal.serialize(), staked_rep })),
        Err(e) => Some(Err(Error::from_proposal(e))),
    }
}

/// Creates the governance proposal of `caller`, who owns `reputation_balance`.
///
/// The call is refused with `InvalidVotingContractAddress` until the voting engine has
/// been set, with `NotAMember` for a caller who is no member, and with
/// `StakedRepGreaterThanReputationBalance` where the stake exceeds the balance.
pub fn create_governance_proposal(
    voting_contract_changed: bool,
    is_member: bool,
    caller: AccountHash,
    reputation_balance: U256,
    name: String,
    vote_configuration: GovernanceVoteConfigurationSerialized,
    staked_rep: U256,
    sponsors: Vec<(AccountHash, U256)>,
    repository_url: String,
    new_variable_key_value: (String, String),
) -> (r: Result<GovernanceProposalCreated, Error>)
    ensures
        match r {
            Err(e) => Some(e) == creation_refusal(
                voting_contract_changed,
                is_member,
                if staked_rep@ > reputation_balance@ {
                    Some(ProposalError::StakedRepGreaterThanReputationBalance)
                } else {
                    None
                },
            ),
            Ok(done) => {
                &&& voting_contract_changed
                &&& is_member
                &&& staked_rep@ <= reputation_balance@
                &&& GovernanceProposal::is_serialized(
                    GovernanceProposal::spec_new(
                        name@,
                        vote_configuration,
                        caller,
                        sponsors@,
                        repository_url@,
                        (new_variable_key_value.0@, new_variable_key_value.1@),
                    ),
                    done.proposal,
                )
                &&& done.staked_rep == staked_rep
            },
        },
{
    if !voting_contract_changed {
        return Err(Error::InvalidVotingContractAddress);
    }
    if !is_member {
        return Err(Error::NotAMember);
    }
    match GovernanceProposal::new(
        name,
        vote_configuration,
        staked_rep,
        caller,
        reputation_balance,
        sponsors,
        repository_url,
        new_variable_key_value,
    ) {
        Ok(proposal) => Ok(
            GovernanceProposalCreated { proposal: proposal.serialize(), staked_rep },
        ),
        Err(e) => Err(Error::from_proposal(e)),
    }
}

} // verus!
