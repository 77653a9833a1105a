//! The calls of the execution engine, each as one step from what the host has read to
//! what the host is to store and to do.
//!
//! The host keeps the projects in their flat form under their index and has the voting
//! engine open the votes on the analyses of milestones. A step hands back `None` where a
//! stored project is not in the state that the call is made for, or where a count has
//! left the range of its type: the host has nothing to go on then.
use crate::account::AccountHash;
use crate::custom_types::{ProjectSerialized, ProposalSerialized};
use crate::execution::{recommendations_map, MilestoneAnalysisView, Project, ProjectStatus, ProjectView};
use crate::proposal::{Proposal, ProposalType, ProposalView};
use crate::proposal_engine::{assert_caller, Error};
use crate::uint::{u256_max, U256};
use vstd::prelude::*;

verus! {

/// Opens the project of an approved proposal. Only the voting engine may do so. The
/// project is handed back with the count of projects after it; `None` where the count
/// cannot grow.
pub fn new_project(
    caller: AccountHash,
    voting_engine_address: AccountHash,
    project_count: U256,
    proposal: ProposalSerialized,
) -> (r: Option<Result<(ProjectSerialized, U256), Error>>)
    ensures
        caller != voting_engine_address ==> r == Some(
            Err::<(ProjectSerialized, U256), Error>(Error::NotTheAdminAccount),
        ),
        caller == voting_engine_address ==> match r {
            None => project_count@ == u256_max(),
            Some(Err(_)) => false,
            Some(Ok((project, next_count))) => {
                &&& next_count@ == project_count@ + 1
                &&& Project::is_serialized(
                    ProjectView::initial(Proposal::spec_deserialize(proposal)),
                    project,
                )
            },
        },
{
    match assert_caller(caller, voting_engine_address) {
        Err(e) => {
            return Some(Err(e));
        },
        Ok(()) => {},
    }
    let next_count = match project_count.checked_add(&U256::from_u64(1)) {
        Some(next_count) => next_count,
        None => {
            proof {
                project_count.lemma_bounded();
            }
            return None;
        },
    };
    match Project::new(proposal) {
        Ok(project) => Some(Ok((project.serialize(), next_count))),
        Err(_) => unreached(),
    }
}

/// Whether a stored project can claim its milestone: it is active, it has the milestone
/// that is being worked on, and the milestone was not claimed.
pub open spec fn can_claim(v: ProjectView) -> bool {
    &&& v.status == ProjectStatus::Active
    &&& v.has_active_milestone()
    &&& !v.current_is_claimed()
}

/// Claims the milestone that is being worked on. Only the proposer may do so.
pub fn trigger_milestone_completion(stored: ProjectSerialized, caller: AccountHash) -> (r: Option<
    Result<ProjectSerialized, Error>,
>)
    ensures
        ({
            let v = Project::spec_deserialize(stored);
            if caller != v.proposal.proposer {
                r == Some(Err::<ProjectSerialized, Error>(Error::NotTheAdminAccount))
            } else {
                match r {
                    None => !can_claim(v),
                    Some(Err(_)) => false,
                    Some(Ok(project)) => can_claim(v) && Project::is_serialized(
                        v.after_claim(),
                        project,
                    ),
                }
            }
        }),
{
    let mut project = Project::deserialize(stored);
    match assert_caller(caller, project.proposal.proposer) {
        Err(e) => {
            return Some(Err(e));
        },
        Ok(()) => {},
    }
    if project.status != ProjectStatus::Active || !project.has_active_milestone() {
        return None;
    }
    if project.current_is_claimed() {
        return None;
    }
    match project.claim_milestone() {
        Ok(()) => Some(Ok(project.serialize())),
        Err(_) => unreached(),
    }
}

/// The proposal on which the analysis of a milestone is voted: the proposal of the
/// project, as an acceptance of an analysis, with the index of the project in the place
/// of the cost.
pub open spec fn analysis_proposal(proposal: ProposalView, project_index: U256) -> ProposalView {
    ProposalView {
        proposal_type: ProposalType::AnalysisAcceptance,
        cost: project_index,
        ..proposal
    }
}

/// The proposal on which the voting engine is to open the vote on the analysis of the
/// milestone of a stored project. Only the proposer may ask for it.
pub fn analysis_vote(stored: ProjectSerialized, caller: AccountHash, project_index: U256) -> (r:
    Result<ProposalSerialized, Error>)
    ensures
        ({
            let v = Project::spec_deserialize(stored);
            match r {
                Err(e) => caller != v.proposal.proposer && e == Error::NotTheAdminAccount,
                Ok(proposal) => caller == v.proposal.proposer && Proposal::is_serialized(
                    analysis_proposal(v.proposal, project_index),
                    proposal,
                ),
            }
        }),
{
    let project = Project::deserialize(stored);
    match assert_caller(caller, project.proposal.proposer) {
        Err(e) => {
            return Err(e);
        },
        Ok(()) => {},
    }
    let mut new_proposal = project.proposal;
    new_proposal.proposal_type = ProposalType::AnalysisAcceptance;
    new_proposal.cost = project_index;
    assert(new_proposal@ =~= analysis_proposal(
        Project::spec_deserialize(stored).proposal,
        project_index,
    ));
    Ok(new_proposal.serialize())
}

/// Records the analysis of the claimed milestone of a stored project under the index of
/// the vote that was opened on it. Only the proposer may do so.
pub fn submit_milestone_analysis(
    stored: ProjectSerialized,
    caller: AccountHash,
    is_favorable: bool,
    recommendations: Vec<(String, String)>,
    vote_index: U256,
) -> (r: Option<Result<ProjectSerialized, Error>>)
    ensures
        ({
            let v = Project::spec_deserialize(stored);
            if caller != v.proposal.proposer {
                r == Some(Err::<ProjectSerialized, Error>(Error::NotTheAdminAccount))
            } else {
                match r {
                    None => v.status != ProjectStatus::MilestoneUnderReview,
                    Some(Err(_)) => false,
                    Some(Ok(project)) => v.status == ProjectStatus::MilestoneUnderReview
                        && Project::is_serialized(
                        v.after_analysis(
                            (MilestoneAnalysisView {
                                is_favorable,
                                recommendations: recommendations_map(recommendations@),
                            }),
                            vote_index,
                        ),
                        project,
                    ),
                }
            }
        }),
{
    let mut project = Project::deserialize(stored);
    match assert_caller(caller, project.proposal.proposer) {
        Err(e) => {
            return Some(Err(e));
        },
        Ok(()) => {},
    }
    if project.status != ProjectStatus::MilestoneUnderReview {
        return None;
    }
    match project.submit_milestone_analysis(is_favorable, recommendations, vote_index) {
        Ok(()) => Some(Ok(project.serialize())),
        Err(_) => unreached(),
    }
}

/// Whether a stored project awaits the vote on the analysis under this index.
pub open spec fn can_approve(v: ProjectView, milestone_analysis_index: U256) -> bool {
    &&& v.status == ProjectStatus::VotingOnMilestoneAnalysis
    &&& v.milestone_analyses.contains_key(milestone_analysis_index.spec_key())
}

/// Records the outcome of the vote on an analysis in a stored project. Only the voting
/// engine may do so. The project is handed back with the proposal on which the voting
/// engine is to open the vote that follows.
pub fn approve_milestone_analysis(
    stored: ProjectSerialized,
    caller: AccountHash,
    voting_engine_address: AccountHash,
    milestone_analysis_index: U256,
) -> (r: Option<Result<(ProjectSerialized, ProposalSerialized), Error>>)
    ensures
        ({
            let v = Project::spec_deserialize(stored);
            if caller != voting_engine_address {
                r == Some(
                    Err::<(ProjectSerialized, ProposalSerialized), Error>(Error::NotTheAdminAccount),
                )
            } else {
                match r {
                    None => !can_approve(v, milestone_analysis_index),
                    Some(Err(_)) => false,
                    Some(Ok((project, proposal))) => {
                        &&& can_approve(v, milestone_analysis_index)
                        &&& Project::is_serialized(
                            v.after_approval(milestone_analysis_index),
                            project,
                        )
                        &&& Proposal::is_serialized(
                            (ProposalView {
                                proposal_type: ProposalType::AnalysisAcceptance,
                                ..v.proposal
                            }),
                            proposal,
                        )
                    },
                }
            }
        }),
{
    let mut project = Project::deserialize(stored);
    match assert_caller(caller, voting_engine_address) {
        Err(e) => {
            return Some(Err(e));
        },
        Ok(()) => {},
    }
    if project.status != ProjectStatus::VotingOnMilestoneAnalysis || !project.has_analysis(
        &milestone_analysis_index,
    ) {
        return None;
    }
    match project.approve_milestone_analysis(milestone_analysis_index) {
        Ok(_) => {},
        Err(_) => unreached(),
    }
    let stored_project = project.serialize();
    let mut new_proposal = project.proposal;
    new_proposal.proposal_type = ProposalType::AnalysisAcceptance;
    assert(new_proposal@ =~= (ProposalView {
        proposal_type: ProposalType::AnalysisAcceptance,
        ..Project::spec_deserialize(stored).proposal
    }));
    Some(Ok((stored_project, new_proposal.serialize())))
}

/// Looks at the clock for a stored project: says whether its milestone has timed out,
/// and hands back the project to store where it has. `None` where the project has no
/// milestone to look at.
pub fn check_timeout(stored: ProjectSerialized, current_time: u64) -> (r: Option<
    (bool, Option<ProjectSerialized>),
>)
    ensures
        ({
            let v = Project::spec_deserialize(stored);
            match r {
                None => !v.has_active_milestone(),
                Some((timed_out, project)) => {
                    &&& v.has_active_milestone()
                    &&& timed_out == v.times_out(current_time)
                    &&& match project {
                        Some(flat) => timed_out && Project::is_serialized(
                            v.after_timeout_check(current_time),
                            flat,
                        ),
                        None => !timed_out,
                    }
                },
            }
        }),
{
    let mut project = Project::deserialize(stored);
    if !project.has_active_milestone() {
        return None;
    }
    match project.check_milestone_timeout(current_time) {
        Ok(true) => Some((true, Some(project.serialize()))),
        Ok(false) => Some((false, None)),
        Err(_) => unreached(),
    }
}

} // verus!
