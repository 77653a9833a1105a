//! Projects: an approved grant is carried out milestone by milestone. Each milestone is
//! claimed, analysed, and the analysis voted on; an accepted analysis opens the next
//! milestone, a rejected one sends the project into remediation, and a milestone that is
//! not claimed in time times out.
use crate::custom_types::{
    MilestoneAnalysisSerialized, MilestoneSerialized, ProjectSerialized, ProposalSerialized,
};
use crate::error::ProposalError;
use crate::proposal::{
    milestone_deserialized, milestone_is_serialized, lemma_milestone_round_trip, Milestone,
    MilestoneView, Proposal, ProposalView,
};
use crate::uint::U256;
use std::collections::BTreeMap;
use vstd::prelude::*;
use vstd::std_specs::iter::IteratorSpec;

verus! {

/// What the analysis of a milestone found.
#[derive(Debug, PartialEq, Eq)]
pub struct MilestoneAnalysis {
    pub is_favorable: bool,
    /// The recommendations, each a heading and a text. Where a heading occurs twice, the
    /// later text stands.
    pub recommendations: Vec<(String, String)>,
}

/// The analysis of a milestone as a mathematical value: its recommendations by heading.
#[verifier::ext_equal]
pub struct MilestoneAnalysisView {
    pub is_favorable: bool,
    pub recommendations: Map<Seq<char>, Seq<char>>,
}

/// The recommendations of a list by heading: a later text replaces an earlier one under
/// the same heading.
pub open spec fn recommendations_map(list: Seq<(String, String)>) -> Map<Seq<char>, Seq<char>>
    decreases list.len(),
{
    if list.len() == 0 {
        Map::empty()
    } else {
        recommendations_map(list.drop_last()).insert(list.last().0@, list.last().1@)
    }
}

impl View for MilestoneAnalysis {
    type V = MilestoneAnalysisView;

    open spec fn view(&self) -> MilestoneAnalysisView {
        MilestoneAnalysisView {
            is_favorable: self.is_favorable,
            recommendations: recommendations_map(self.recommendations@),
        }
    }
}

/// Two lists of recommendations with the same headings and texts in the same order read
/// as the same map.
pub proof fn lemma_recommendations_map_by_text(a: Seq<(String, String)>, b: Seq<(String, String)>)
    requires
        a.len() == b.len(),
        forall|i: int| 0 <= i < a.len() ==> a[i].0@ == b[i].0@ && a[i].1@ == b[i].1@,
    ensures
        recommendations_map(a) == recommendations_map(b),
    decreases a.len(),
{
    if a.len() > 0 {
        lemma_recommendations_map_by_text(a.drop_last(), b.drop_last());
    }
}

/// A copy of a list of recommendations.
pub fn clone_recommendations(list: &Vec<(String, String)>) -> (r: Vec<(String, String)>)
    ensures
        recommendations_map(r@) == recommendations_map(list@),
        r@.len() == list@.len(),
        forall|i: int| 0 <= i < r@.len() ==> r@[i].0@ == list@[i].0@ && r@[i].1@ == list@[i].1@,
{
    let mut copy: Vec<(String, String)> = Vec::new();
    let mut i: usize = 0;
    while i < list.len()
        invariant
            i <= list.len(),
            copy@.len() == i,
            forall|j: int| 0 <= j < i ==> copy@[j].0@ == list@[j].0@ && copy@[j].1@ == list@[j].1@,
        decreases list.len() - i,
    {
        copy.push((list[i].0.clone(), list[i].1.clone()));
        i += 1;
    }
    proof {
        lemma_recommendations_map_by_text(copy@, list@);
    }
    copy
}

impl Clone for MilestoneAnalysis {
    fn clone(&self) -> (r: Self)
        ensures
            r@ == self@,
    {
        MilestoneAnalysis {
            is_favorable: self.is_favorable,
            recommendations: clone_recommendations(&self.recommendations),
        }
    }
}

/// Where a project stands.
#[derive(Clone, Copy, Debug, PartialEq, Eq, Structural)]
pub enum ProjectStatus {
    Active,
    MilestoneUnderReview,
    VotingOnMilestoneAnalysis,
    MilestoneTimeout,
    Completed,
    Remediation,
}

impl ProjectStatus {
    /// The code under which the status is stored.
    pub open spec fn spec_code(self) -> u8 {
        match self {
            ProjectStatus::Active => 0,
            ProjectStatus::MilestoneUnderReview => 1,
            ProjectStatus::VotingOnMilestoneAnalysis => 2,
            ProjectStatus::MilestoneTimeout => 3,
            ProjectStatus::Completed => 4,
            ProjectStatus::Remediation => 5,
        }
    }

    /// The status stored under a code; a code that names none reads as remediation.
    pub open spec fn spec_from_code(code: u8) -> ProjectStatus {
        if code == 0 {
            ProjectStatus::Active
        } else if code == 1 {
            ProjectStatus::MilestoneUnderReview
        } else if code == 2 {
            ProjectStatus::VotingOnMilestoneAnalysis
        } else if code == 3 {
            ProjectStatus::MilestoneTimeout
        } else if code == 4 {
            ProjectStatus::Completed
        } else {
            ProjectStatus::Remediation
        }
    }

    /// The code under which the status is stored.
    pub fn code(&self) -> (r: u8)
        ensures
            r == self.spec_code(),
    {
        match self {
            ProjectStatus::Active => 0,
            ProjectStatus::MilestoneUnderReview => 1,
            ProjectStatus::VotingOnMilestoneAnalysis => 2,
            ProjectStatus::MilestoneTimeout => 3,
            ProjectStatus::Completed => 4,
            ProjectStatus::Remediation => 5,
        }
    }

    /// The status stored under a code; a code that names none reads as remediation.
    pub fn from_code(code: u8) -> (r: ProjectStatus)
        ensures
            r == ProjectStatus::spec_from_code(code),
    {
        match code {
            0 => ProjectStatus::Active,
            1 => ProjectStatus::MilestoneUnderReview,
            2 => ProjectStatus::VotingOnMilestoneAnalysis,
            3 => ProjectStatus::MilestoneTimeout,
            4 => ProjectStatus::Completed,
            _ => ProjectStatus::Remediation,
        }
    }
}

/// An approved grant in execution.
#[derive(Debug, PartialEq, Eq)]
pub struct Project {
    /// The proposal as it was approved.
    pub proposal: Proposal,
    /// The index of the milestone that is being worked on.
    pub active_milestone: u64,
    pub status: ProjectStatus,
    /// The milestones that were claimed, in the order of their claims.
    pub claimed_milestones: Vec<Milestone>,
    /// The analyses that were submitted, by the key of the index of the vote on each.
    pub milestone_analyses: BTreeMap<(u64, u64, u64, u64), MilestoneAnalysis>,
}

/// A project as a mathematical value.
#[verifier::ext_equal]
pub struct ProjectView {
    pub proposal: ProposalView,
    pub active_milestone: u64,
    pub status: ProjectStatus,
    pub claimed_milestones: Seq<MilestoneView>,
    pub milestone_analyses: Map<(u64, u64, u64, u64), MilestoneAnalysisView>,
}

/// The milestones of a list, each as a mathematical value.
pub open spec fn claimed_view(list: Seq<Milestone>) -> Seq<MilestoneView> {
    list.map_values(|m: Milestone| m@)
}

/// The analyses of a map, each as a mathematical value.
pub open spec fn analyses_view(m: Map<(u64, u64, u64, u64), MilestoneAnalysis>) -> Map<
    (u64, u64, u64, u64),
    MilestoneAnalysisView,
> {
    m.map_values(|a: MilestoneAnalysis| a@)
}

impl View for Project {
    type V = ProjectView;

    open spec fn view(&self) -> ProjectView {
        ProjectView {
            proposal: self.proposal@,
            active_milestone: self.active_milestone,
            status: self.status,
            claimed_milestones: claimed_view(self.claimed_milestones@),
            milestone_analyses: analyses_view(self.milestone_analyses@),
        }
    }
}

impl ProjectView {
    /// A project that has just been approved: its first milestone is open and nothing
    /// is claimed or analysed.
    pub open spec fn initial(proposal: ProposalView) -> ProjectView {
        ProjectView {
            proposal,
            active_milestone: 0,
            status: ProjectStatus::Active,
            claimed_milestones: Seq::empty(),
            milestone_analyses: Map::empty(),
        }
    }

    /// Whether the proposal has the milestone that is being worked on.
    pub open spec fn has_active_milestone(self) -> bool {
        self.proposal.milestones.contains_key(self.active_milestone)
    }

    /// The milestone that is being worked on.
    pub open spec fn current_milestone(self) -> MilestoneView
        recommends
            self.has_active_milestone(),
    {
        self.proposal.milestones[self.active_milestone]
    }

    /// Whether the milestone that is being worked on was claimed.
    pub open spec fn current_is_claimed(self) -> bool {
        self.claimed_milestones.contains(self.current_milestone())
    }

    /// Whether the milestone that is being worked on times out at `current_time`: the
    /// project is active, the time of the milestone has passed, and the milestone was
    /// not claimed.
    pub open spec fn times_out(self, current_time: u64) -> bool {
        &&& self.status == ProjectStatus::Active
        &&& self.current_milestone().timeout < current_time
        &&& !self.current_is_claimed()
    }

    /// The project after a look at the clock.
    pub open spec fn after_timeout_check(self, current_time: u64) -> ProjectView {
        if self.times_out(current_time) {
            ProjectView { status: ProjectStatus::MilestoneTimeout, ..self }
        } else {
            self
        }
    }

    /// The project after the milestone that is being worked on is claimed.
    pub open spec fn after_claim(self) -> ProjectView {
        ProjectView {
            claimed_milestones: self.claimed_milestones.push(self.current_milestone()),
            status: ProjectStatus::MilestoneUnderReview,
            ..self
        }
    }

    /// The project after an analysis is submitted under the index of the vote on it.
    pub open spec fn after_analysis(
        self,
        analysis: MilestoneAnalysisView,
        vote_index: U256,
    ) -> ProjectView {
        ProjectView {
            milestone_analyses: self.milestone_analyses.insert(vote_index.spec_key(), analysis),
            status: ProjectStatus::VotingOnMilestoneAnalysis,
            ..self
        }
    }

    /// Whether the milestone that is being worked on is the last: no milestone follows
    /// it in a proposal of this many milestones.
    pub open spec fn current_is_last(self) -> bool {
        self.active_milestone + 1 >= self.proposal.milestones.len()
    }

    /// The project after the vote on an analysis: remediation where the analysis was
    /// unfavorable; otherwise completion after the last milestone, and the next
    /// milestone before it.
    pub open spec fn after_approval(self, vote_index: U256) -> ProjectView
        recommends
            self.milestone_analyses.contains_key(vote_index.spec_key()),
    {
        if !self.milestone_analyses[vote_index.spec_key()].is_favorable {
            ProjectView { status: ProjectStatus::Remediation, ..self }
        } else if self.current_is_last() {
            ProjectView { status: ProjectStatus::Completed, ..self }
        } else {
            ProjectView {
                active_milestone: (self.active_milestone + 1) as u64,
                status: ProjectStatus::Active,
                ..self
            }
        }
    }

    /// The project after the milestone that is being worked on is given more time.
    pub open spec fn after_extension(self, new_timeout: u64) -> ProjectView
        recommends
            self.has_active_milestone(),
    {
        ProjectView {
            proposal: ProposalView {
                milestones: self.proposal.milestones.insert(
                    self.active_milestone,
                    MilestoneView { timeout: new_timeout, ..self.current_milestone() },
                ),
                ..self.proposal
            },
            status: ProjectStatus::Active,
            ..self
        }
    }

    /// A milestone times out once: after a look at the clock, no later look finds a
    /// timeout again until the project is active anew.
    pub proof fn lemma_timeout_fires_once(self, first: u64, second: u64)
        requires
            self.times_out(first),
        ensures
            self.after_timeout_check(first).status == ProjectStatus::MilestoneTimeout,
            !self.after_timeout_check(first).times_out(second),
            self.after_timeout_check(first).after_timeout_check(second) == self.after_timeout_check(
                first,
            ),
    {
    }

    /// A claimed milestone does not time out.
    pub proof fn lemma_claimed_never_times_out(self, current_time: u64)
        requires
            self.status == ProjectStatus::Active,
        ensures
            !self.after_claim().times_out(current_time),
    {
    }

    /// An approval moves the project by one milestone at most, and only forward.
    pub proof fn lemma_approval_advances_by_one(self, vote_index: U256)
        requires
            self.proposal.milestones.len() <= u64::MAX,
        ensures
            self.after_approval(vote_index).active_milestone == self.active_milestone
                || self.after_approval(vote_index).active_milestone == self.active_milestone + 1,
            self.after_approval(vote_index).status == ProjectStatus::Active
                ==> self.after_approval(vote_index).active_milestone == self.active_milestone + 1,
            self.after_approval(vote_index).status == ProjectStatus::Remediation
                || self.after_approval(vote_index).status == ProjectStatus::Completed
                || self.after_approval(vote_index).status == ProjectStatus::Active,
    {
    }
}

impl Project {
    /// Opens the project of an approved proposal, given in its flat form.
    pub fn new(serialized_proposal: ProposalSerialized) -> (r: Result<Project, ProposalError>)
        ensures
            r matches Ok(p) && p@ == ProjectView::initial(
                Proposal::spec_deserialize(serialized_proposal),
            ),
    {
        let p = Project {
            proposal: Proposal::deserialize(serialized_proposal),
            active_milestone: 0,
            status: ProjectStatus::Active,
            claimed_milestones: Vec::new(),
            milestone_analyses: BTreeMap::new(),
        };
        assert(p@ =~= ProjectView::initial(Proposal::spec_deserialize(serialized_proposal)));
        Ok(p)
    }

    /// Whether the proposal has the milestone that is being worked on.
    pub fn has_active_milestone(&self) -> (r: bool)
        ensures
            r == self@.has_active_milestone(),
    {
        self.proposal.milestones.contains_key(&self.active_milestone)
    }

    /// Whether the milestone that is being worked on was claimed.
    pub fn current_is_claimed(&self) -> (r: bool)
        requires
            self@.has_active_milestone(),
        ensures
            r == self@.current_is_claimed(),
    {
        match self.proposal.milestones.get(&self.active_milestone) {
            Some(milestone) => self.is_claimed(milestone),
            None => unreached(),
        }
    }

    /// Whether an analysis was submitted under the index of this vote.
    pub fn has_analysis(&self, vote_index: &U256) -> (r: bool)
        ensures
            r == self@.milestone_analyses.contains_key(vote_index.spec_key()),
    {
        self.milestone_analyses.contains_key(&vote_index.key())
    }

    /// Whether a milestone is among those that were claimed.
    pub fn is_claimed(&self, milestone: &Milestone) -> (r: bool)
        ensures
            r == self@.claimed_milestones.contains(milestone@),
    {
        let mut i: usize = 0;
        while i < self.claimed_milestones.len()
            invariant
                i <= self.claimed_milestones.len(),
                forall|j: int| 0 <= j < i ==> self@.claimed_milestones[j] != milestone@,
            decreases self.claimed_milestones.len() - i,
        {
            if self.claimed_milestones[i].same(milestone) {
                assert(self@.claimed_milestones[i as int] == milestone@);
                return true;
            }
            i += 1;
        }
        false
    }

    /// Looks at the clock: an active project whose milestone was due before
    /// `current_time` and was not claimed goes into timeout, and the call says so.
    /// Nothing changes otherwise; in particular a project in timeout stays as it is.
    pub fn check_milestone_timeout(&mut self, current_time: u64) -> (r: Result<bool, ProposalError>)
        requires
            old(self)@.has_active_milestone(),
        ensures
            r == Ok::<bool, ProposalError>(old(self)@.times_out(current_time)),
            final(self)@ == old(self)@.after_timeout_check(current_time),
    {
        let times_out = match self.proposal.milestones.get(&self.active_milestone) {
            Some(current_milestone) => self.status == ProjectStatus::Active
                && current_milestone.timeout < current_time && !self.is_claimed(current_milestone),
            None => false,
        };
        if times_out {
            self.status = ProjectStatus::MilestoneTimeout;
            assert(self@ =~= old(self)@.after_timeout_check(current_time));
            return Ok(true);
        }
        Ok(false)
    }

    /// Claims the milestone that is being worked on: it joins the claimed milestones and
    /// the project goes under review. Only an active project can claim, and no milestone
    /// is claimed twice.
    pub fn claim_milestone(&mut self) -> (r: Result<(), ProposalError>)
        requires
            old(self)@.status == ProjectStatus::Active,
            old(self)@.has_active_milestone(),
            !old(self)@.current_is_claimed(),
        ensures
            r is Ok,
            final(self)@ == old(self)@.after_claim(),
    {
        let current_milestone = match self.proposal.milestones.get(&self.active_milestone) {
            Some(milestone) => milestone.clone(),
            None => unreached(),
        };
        self.claimed_milestones.push(current_milestone);
        self.status = ProjectStatus::MilestoneUnderReview;
        assert(self@.claimed_milestones =~= old(self)@.claimed_milestones.push(
            old(self)@.current_milestone(),
        ));
        assert(self@ =~= old(self)@.after_claim());
        Ok(())
    }

    /// Records the outcome of the vote on the analysis that was submitted under
    /// `milestone_analysis_index`: an unfavorable analysis sends the project into
    /// remediation; a favorable one completes the project after its last milestone and
    /// opens the next milestone before it. Nothing is handed back.
    pub fn approve_milestone_analysis(&mut self, milestone_analysis_index: U256) -> (r: Result<
        Option<Vec<(String, String)>>,
        ProposalError,
    >)
        requires
            old(self)@.status == ProjectStatus::VotingOnMilestoneAnalysis,
            old(self)@.milestone_analyses.contains_key(milestone_analysis_index.spec_key()),
        ensures
            r matches Ok(None),
            final(self)@ == old(self)@.after_approval(milestone_analysis_index),
    {
        let is_favorable = match self.milestone_analyses.get(&milestone_analysis_index.key()) {
            Some(analysis) => analysis.is_favorable,
            None => unreached(),
        };
        if !is_favorable {
            self.status = ProjectStatus::Remediation;
        } else {
            let count = self.proposal.milestones.len();
            assert(self@.proposal.milestones.dom() =~= self.proposal.milestones@.dom());
            if self.active_milestone < u64::MAX && self.active_milestone + 1 < count as u64 {
                self.active_milestone = self.active_milestone + 1;
                self.status = ProjectStatus::Active;
            } else {
                self.status = ProjectStatus::Completed;
            }
        }
        assert(self@ =~= old(self)@.after_approval(milestone_analysis_index));
        Ok(None)
    }

    /// Records the analysis of the claimed milestone under the index of the vote that
    /// was opened on it, and waits for that vote.
    pub fn submit_milestone_analysis(
        &mut self,
        is_favorable: bool,
        recommendations: Vec<(String, String)>,
        vote_index: U256,
    ) -> (r: Result<(), ProposalError>)
        requires
            old(self)@.status == ProjectStatus::MilestoneUnderReview,
        ensures
            r is Ok,
            final(self)@ == old(self)@.after_analysis(
                MilestoneAnalysisView {
                    is_favorable,
                    recommendations: recommendations_map(recommendations@),
                },
                vote_index,
            ),
    {
        self.milestone_analyses.insert(
            vote_index.key(),
            MilestoneAnalysis { is_favorable, recommendations },
        );
        self.status = ProjectStatus::VotingOnMilestoneAnalysis;
        assert(self@ =~= old(self)@.after_analysis(
            MilestoneAnalysisView {
                is_favorable,
                recommendations: recommendations_map(recommendations@),
            },
            vote_index,
        ));
        Ok(())
    }

    /// Gives the milestone that is being worked on until `new_timeout`, and makes the
    /// project active again.
    pub fn extend_milestone_deadline(&mut self, new_timeout: u64) -> (r: Result<(), ProposalError>)
        requires
            old(self)@.has_active_milestone(),
        ensures
            r is Ok,
            final(self)@ == old(self)@.after_extension(new_timeout),
    {
        let mut milestone = match self.proposal.milestones.get(&self.active_milestone) {
            Some(milestone) => milestone.clone(),
            None => unreached(),
        };
        milestone.timeout = new_timeout;
        self.proposal.milestones.insert(self.active_milestone, milestone);
        self.status = ProjectStatus::Active;
        assert(self@.proposal.milestones =~= old(self)@.after_extension(
            new_timeout,
        ).proposal.milestones);
        assert(self@.proposal =~= old(self)@.after_extension(new_timeout).proposal);
        assert(self@ =~= old(self)@.after_extension(new_timeout));
        Ok(())
    }
}

/// The analysis that a flat form holds.
pub open spec fn analysis_deserialized(s: MilestoneAnalysisSerialized) -> MilestoneAnalysisView {
    MilestoneAnalysisView { is_favorable: s.0, recommendations: recommendations_map(s.1@) }
}

/// Whether `s` is the flat form of the analysis `a`.
pub open spec fn analysis_is_serialized(
    a: MilestoneAnalysisView,
    s: MilestoneAnalysisSerialized,
) -> bool {
    &&& s.0 == a.is_favorable
    &&& recommendations_map(s.1@) == a.recommendations
}

/// Whether `s` holds the flat form of every claimed milestone of `claimed`, in order.
pub open spec fn claimed_are_serialized(
    claimed: Seq<MilestoneView>,
    s: Seq<MilestoneSerialized>,
) -> bool {
    &&& s.len() == claimed.len()
    &&& forall|i: int| 0 <= i < claimed.len() ==> milestone_is_serialized(#[trigger] claimed[i], s[i])
}

/// Whether `s` holds the flat form of every analysis of `analyses` under its key, and
/// nothing else.
pub open spec fn analyses_are_serialized(
    analyses: Map<(u64, u64, u64, u64), MilestoneAnalysisView>,
    s: Map<(u64, u64, u64, u64), MilestoneAnalysisSerialized>,
) -> bool {
    &&& s.dom() == analyses.dom()
    &&& forall|k: (u64, u64, u64, u64)| #[trigger]
        analyses.contains_key(k) ==> analysis_is_serialized(analyses[k], s[k])
}

impl Project {
    /// Whether `s` is the flat form of the project `v`: the proposal and the index of
    /// the active milestone, then the status as its code, the claimed milestones in
    /// order and the analyses under their keys.
    pub open spec fn is_serialized(v: ProjectView, s: ProjectSerialized) -> bool {
        &&& Proposal::is_serialized(v.proposal, s.0.0)
        &&& s.0.1 == v.active_milestone
        &&& s.1.0 == v.status.spec_code()
        &&& claimed_are_serialized(v.claimed_milestones, s.1.1@)
        &&& analyses_are_serialized(v.milestone_analyses, s.1.2@)
    }

    /// The project that a flat form holds.
    pub open spec fn spec_deserialize(s: ProjectSerialized) -> ProjectView {
        ProjectView {
            proposal: Proposal::spec_deserialize(s.0.0),
            active_milestone: s.0.1,
            status: ProjectStatus::spec_from_code(s.1.0),
            claimed_milestones: s.1.1@.map_values(|m: MilestoneSerialized| milestone_deserialized(m)),
            milestone_analyses: s.1.2@.map_values(
                |a: MilestoneAnalysisSerialized| analysis_deserialized(a),
            ),
        }
    }

    /// Reading the flat form of a project gives the project back.
    pub proof fn lemma_round_trip(v: ProjectView, s: ProjectSerialized)
        requires
            Project::is_serialized(v, s),
        ensures
            Project::spec_deserialize(s) == v,
    {
        let d = Project::spec_deserialize(s);
        Proposal::lemma_round_trip(v.proposal, s.0.0);
        assert(d.claimed_milestones =~= v.claimed_milestones) by {
            assert forall|i: int| 0 <= i < v.claimed_milestones.len() implies d.claimed_milestones[i]
                == v.claimed_milestones[i] by {
                lemma_milestone_round_trip(v.claimed_milestones[i], s.1.1@[i]);
            }
        }
        assert(d.milestone_analyses =~= v.milestone_analyses) by {
            assert forall|k: (u64, u64, u64, u64)|
                v.milestone_analyses.contains_key(k) implies d.milestone_analyses[k]
                == v.milestone_analyses[k] by {
                assert(analysis_is_serialized(v.milestone_analyses[k], s.1.2@[k]));
                assert(d.milestone_analyses[k] =~= v.milestone_analyses[k]);
            }
        }
        assert(d =~= v);
    }

    /// The flat form of the project.
    pub fn serialize(&self) -> (r: ProjectSerialized)
        ensures
            Project::is_serialized(self@, r),
    {
        (
            (self.proposal.serialize(), self.active_milestone),
            (
                self.status.code(),
                self.serialize_claimed_milestones(),
                self.serialize_milestone_analyses(),
            ),
        )
    }

    /// The flat forms of the claimed milestones, in order.
    pub fn serialize_claimed_milestones(&self) -> (r: Vec<MilestoneSerialized>)
        ensures
            claimed_are_serialized(self@.claimed_milestones, r@),
    {
        let mut output: Vec<MilestoneSerialized> = Vec::new();
        let mut i: usize = 0;
        while i < self.claimed_milestones.len()
            invariant
                i <= self.claimed_milestones.len(),
                output@.len() == i,
                forall|j: int|
                    0 <= j < i ==> milestone_is_serialized(
                        #[trigger] self@.claimed_milestones[j],
                        output@[j],
                    ),
            decreases self.claimed_milestones.len() - i,
        {
            output.push(self.claimed_milestones[i].serialize());
            i += 1;
        }
        output
    }

    /// The flat forms of the analyses, under their keys.
    pub fn serialize_milestone_analyses(&self) -> (r: BTreeMap<
        (u64, u64, u64, u64),
        MilestoneAnalysisSerialized,
    >)
        ensures
            analyses_are_serialized(self@.milestone_analyses, r@),
    {
        let mut output: BTreeMap<(u64, u64, u64, u64), MilestoneAnalysisSerialized> =
            BTreeMap::new();
        for entry in it: self.milestone_analyses.iter()
            invariant
                it.seq() == self.milestone_analyses.iter().remaining(),
                forall|k: (u64, u64, u64, u64)| #[trigger]
                    output@.contains_key(k) <==> exists|j: int|
                        0 <= j < it.index() && *(#[trigger] it.seq()[j]).0 == k,
                forall|k: (u64, u64, u64, u64)| #[trigger]
                    output@.contains_key(k) ==> self.milestone_analyses@.contains_key(k)
                        && analysis_is_serialized(self.milestone_analyses@[k]@, output@[k]),
        {
            let (key, analysis) = entry;
            assert(entry == it.seq()[it.index() as int]);
            output.insert(
                *key,
                (analysis.is_favorable, clone_recommendations(&analysis.recommendations)),
            );
        }
        assert(output@.dom() =~= self@.milestone_analyses.dom());
        output
    }

    /// The project that a flat form holds. A status code that names no status reads as
    /// remediation.
    pub fn deserialize(project_serialized: ProjectSerialized) -> (r: Project)
        ensures
            r@ == Project::spec_deserialize(project_serialized),
    {
        let claimed_milestones = Self::deserialize_claimed_milestones(&project_serialized.1.1);
        let milestone_analyses = Self::deserialize_milestone_analyses(&project_serialized.1.2);
        let ((proposal, active_milestone), (status, _, _)) = project_serialized;
        let r = Project {
            proposal: Proposal::deserialize(proposal),
            active_milestone,
            status: ProjectStatus::from_code(status),
            claimed_milestones,
            milestone_analyses,
        };
        assert(r@ =~= Project::spec_deserialize(project_serialized));
        r
    }

    /// The claimed milestones that a list of flat forms holds.
    pub fn deserialize_claimed_milestones(serialized_milestones: &Vec<MilestoneSerialized>) -> (r:
        Vec<Milestone>)
        ensures
            claimed_view(r@) == serialized_milestones@.map_values(
                |m: MilestoneSerialized| milestone_deserialized(m),
            ),
    {
        let mut output: Vec<Milestone> = Vec::new();
        let mut i: usize = 0;
        while i < serialized_milestones.len()
            invariant
                i <= serialized_milestones.len(),
                output@.len() == i,
                forall|j: int|
                    0 <= j < i ==> (#[trigger] output@[j])@ == milestone_deserialized(
                        serialized_milestones@[j],
                    ),
            decreases serialized_milestones.len() - i,
        {
            output.push(Milestone::deserialize(&serialized_milestones[i]));
            i += 1;
        }
        assert(claimed_view(output@) =~= serialized_milestones@.map_values(
            |m: MilestoneSerialized| milestone_deserialized(m),
        ));
        output
    }

    /// The analyses that a map of flat forms holds.
    pub fn deserialize_milestone_analyses(
        serialized_milestones: &BTreeMap<(u64, u64, u64, u64), MilestoneAnalysisSerialized>,
    ) -> (r: BTreeMap<(u64, u64, u64, u64), MilestoneAnalysis>)
        ensures
            analyses_view(r@) == serialized_milestones@.map_values(
                |a: MilestoneAnalysisSerialized| analysis_deserialized(a),
            ),
    {
        let mut output: BTreeMap<(u64, u64, u64, u64), MilestoneAnalysis> = BTreeMap::new();
        for entry in it: serialized_milestones.iter()
            invariant
                it.seq() == serialized_milestones.iter().remaining(),
                forall|k: (u64, u64, u64, u64)| #[trigger]
                    output@.contains_key(k) <==> exists|j: int|
                        0 <= j < it.index() && *(#[trigger] it.seq()[j]).0 == k,
                forall|k: (u64, u64, u64, u64)| #[trigger]
                    output@.contains_key(k) ==> serialized_milestones@.contains_key(k)
                        && output@[k]@ == analysis_deserialized(serialized_milestones@[k]),
        {
            let (key, milestone_analysis) = entry;
            assert(entry == it.seq()[it.index() as int]);
            let analysis = MilestoneAnalysis {
                is_favorable: milestone_analysis.0,
                recommendations: clone_recommendations(&milestone_analysis.1),
            };
            assert(analysis@ =~= analysis_deserialized(*milestone_analysis));
            output.insert(*key, analysis);
        }
        assert(analyses_view(output@) =~= serialized_milestones@.map_values(
            |a: MilestoneAnalysisSerialized| analysis_deserialized(a),
        ));
        output
    }
}


} // verus!
