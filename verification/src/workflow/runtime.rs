//! Stage-agnostic runtime primitives: the task state machine, iteration
//! outcomes, the coarse phase used by storage, and the artifact store.

use vstd::prelude::*;

use crate::text::{owned, str_eq};
use crate::workflow::domain::question::{clone_questions, same_questions, Question};

verus! {

/// Where a task is in its lifecycle.
///
/// Every non-terminal state except `Integrating` is tied to the stage the
/// task is in.
#[allow(inconsistent_fields)]
#[derive(Debug, Clone, PartialEq)]
pub enum TaskState {
    /// Waiting for the orchestrator to spawn an agent for `stage`.
    Queued { stage: String },
    /// Waiting for its worktree to be set up.
    AwaitingSetup { stage: String },
    /// Worktree setup in progress.
    SettingUp { stage: String },
    /// An agent is running.
    AgentWorking { stage: String },
    /// Output is ready for human approval.
    AwaitingApproval { stage: String },
    /// The agent asked questions that a human must answer.
    AwaitingQuestionAnswer { stage: String },
    /// An approving agent rejected; a human must confirm the rejection.
    AwaitingRejectionConfirmation { stage: String },
    /// The agent was interrupted (crash or stop).
    Interrupted { stage: String },
    /// Post-agent bookkeeping in progress.
    Finishing { stage: String },
    /// Changes are being committed.
    Committing { stage: String },
    /// Changes were committed; advancement pending.
    Committed { stage: String },
    /// The task branch is being merged.
    Integrating,
    /// A parent waiting for its subtasks.
    WaitingOnChildren { stage: String },
    /// Completed.
    Done,
    /// Completed and integrated.
    Archived,
    /// Failed permanently.
    Failed { stage: Option<String>, error: String },
    /// Blocked permanently.
    Blocked { stage: Option<String>, reason: String },
}

impl TaskState {
    /// The stage the state belongs to, if any.
    pub open spec fn spec_stage(&self) -> Option<Seq<char>> {
        match self {
            TaskState::Queued { stage } => Some(stage@),
            TaskState::AwaitingSetup { stage } => Some(stage@),
            TaskState::SettingUp { stage } => Some(stage@),
            TaskState::AgentWorking { stage } => Some(stage@),
            TaskState::AwaitingApproval { stage } => Some(stage@),
            TaskState::AwaitingQuestionAnswer { stage } => Some(stage@),
            TaskState::AwaitingRejectionConfirmation { stage } => Some(stage@),
            TaskState::Interrupted { stage } => Some(stage@),
            TaskState::Finishing { stage } => Some(stage@),
            TaskState::Committing { stage } => Some(stage@),
            TaskState::Committed { stage } => Some(stage@),
            TaskState::WaitingOnChildren { stage } => Some(stage@),
            _ => None,
        }
    }

    pub open spec fn spec_is_terminal(&self) -> bool {
        self is Done || self is Archived || self is Failed || self is Blocked
    }

    pub open spec fn spec_has_active_agent(&self) -> bool {
        self is AgentWorking
    }

    pub open spec fn spec_is_system_active(&self) -> bool {
        self is Finishing || self is Committing || self is Committed || self is Integrating
    }

    pub open spec fn spec_needs_human(&self) -> bool {
        self is AwaitingApproval || self is AwaitingRejectionConfirmation
    }

    /// Current stage name, if the state is tied to one.
    pub fn stage(&self) -> (r: Option<&str>)
        ensures
            match r {
                Some(s) => self.spec_stage() == Some(s@),
                None => self.spec_stage() is None,
            },
    {
        match self {
            TaskState::Queued { stage } => Some(stage.as_str()),
            TaskState::AwaitingSetup { stage } => Some(stage.as_str()),
            TaskState::SettingUp { stage } => Some(stage.as_str()),
            TaskState::AgentWorking { stage } => Some(stage.as_str()),
            TaskState::AwaitingApproval { stage } => Some(stage.as_str()),
            TaskState::AwaitingQuestionAnswer { stage } => Some(stage.as_str()),
            TaskState::AwaitingRejectionConfirmation { stage } => Some(stage.as_str()),
            TaskState::Interrupted { stage } => Some(stage.as_str()),
            TaskState::Finishing { stage } => Some(stage.as_str()),
            TaskState::Committing { stage } => Some(stage.as_str()),
            TaskState::Committed { stage } => Some(stage.as_str()),
            TaskState::WaitingOnChildren { stage } => Some(stage.as_str()),
            _ => None,
        }
    }

    /// Done, archived, failed or blocked.
    pub fn is_terminal(&self) -> (r: bool)
        ensures
            r == self.spec_is_terminal(),
    {
        match self {
            TaskState::Done | TaskState::Archived | TaskState::Failed { .. } | TaskState::Blocked { .. } => true,
            _ => false,
        }
    }

    /// An agent process is running for the task.
    pub fn has_active_agent(&self) -> (r: bool)
        ensures
            r == self.spec_has_active_agent(),
    {
        match self {
            TaskState::AgentWorking { .. } => true,
            _ => false,
        }
    }

    /// The system (not an agent, not a human) is working on the task.
    pub fn is_system_active(&self) -> (r: bool)
        ensures
            r == self.spec_is_system_active(),
    {
        match self {
            TaskState::Finishing { .. } | TaskState::Committing { .. } | TaskState::Committed { .. }
            | TaskState::Integrating => true,
            _ => false,
        }
    }

    /// A parent task waiting for its subtasks.
    pub fn is_waiting_on_children(&self) -> (r: bool)
        ensures
            r == (self is WaitingOnChildren),
    {
        match self {
            TaskState::WaitingOnChildren { .. } => true,
            _ => false,
        }
    }

    /// Waiting for a human decision on the stage output.
    pub fn needs_human_review(&self) -> (r: bool)
        ensures
            r == self.spec_needs_human(),
    {
        match self {
            TaskState::AwaitingApproval { .. } | TaskState::AwaitingRejectionConfirmation { .. } => true,
            _ => false,
        }
    }

    /// The name of the state's variant.
    pub open spec fn spec_name(&self) -> Seq<char> {
        match self {
            TaskState::Queued { .. } => "Queued"@,
            TaskState::AwaitingSetup { .. } => "AwaitingSetup"@,
            TaskState::SettingUp { .. } => "SettingUp"@,
            TaskState::AgentWorking { .. } => "AgentWorking"@,
            TaskState::AwaitingApproval { .. } => "AwaitingApproval"@,
            TaskState::AwaitingQuestionAnswer { .. } => "AwaitingQuestionAnswer"@,
            TaskState::AwaitingRejectionConfirmation { .. } => "AwaitingRejectionConfirmation"@,
            TaskState::Interrupted { .. } => "Interrupted"@,
            TaskState::Finishing { .. } => "Finishing"@,
            TaskState::Committing { .. } => "Committing"@,
            TaskState::Committed { .. } => "Committed"@,
            TaskState::Integrating => "Integrating"@,
            TaskState::WaitingOnChildren { .. } => "WaitingOnChildren"@,
            TaskState::Done => "Done"@,
            TaskState::Archived => "Archived"@,
            TaskState::Failed { .. } => "Failed"@,
            TaskState::Blocked { .. } => "Blocked"@,
        }
    }

    /// The name of the state's variant.
    pub fn name(&self) -> (r: &'static str)
        ensures
            r@ == self.spec_name(),
    {
        match self {
            TaskState::Queued { .. } => "Queued",
            TaskState::AwaitingSetup { .. } => "AwaitingSetup",
            TaskState::SettingUp { .. } => "SettingUp",
            TaskState::AgentWorking { .. } => "AgentWorking",
            TaskState::AwaitingApproval { .. } => "AwaitingApproval",
            TaskState::AwaitingQuestionAnswer { .. } => "AwaitingQuestionAnswer",
            TaskState::AwaitingRejectionConfirmation { .. } => "AwaitingRejectionConfirmation",
            TaskState::Interrupted { .. } => "Interrupted",
            TaskState::Finishing { .. } => "Finishing",
            TaskState::Committing { .. } => "Committing",
            TaskState::Committed { .. } => "Committed",
            TaskState::Integrating => "Integrating",
            TaskState::WaitingOnChildren { .. } => "WaitingOnChildren",
            TaskState::Done => "Done",
            TaskState::Archived => "Archived",
            TaskState::Failed { .. } => "Failed",
            TaskState::Blocked { .. } => "Blocked",
        }
    }

    pub fn queued(stage: &str) -> (r: TaskState)
        ensures
            r matches TaskState::Queued { stage: s } && s@ == stage@,
    {
        TaskState::Queued { stage: owned(stage) }
    }

    pub fn awaiting_setup(stage: &str) -> (r: TaskState)
        ensures
            r matches TaskState::AwaitingSetup { stage: s } && s@ == stage@,
    {
        TaskState::AwaitingSetup { stage: owned(stage) }
    }

    pub fn setting_up(stage: &str) -> (r: TaskState)
        ensures
            r matches TaskState::SettingUp { stage: s } && s@ == stage@,
    {
        TaskState::SettingUp { stage: owned(stage) }
    }

    pub fn agent_working(stage: &str) -> (r: TaskState)
        ensures
            r matches TaskState::AgentWorking { stage: s } && s@ == stage@,
    {
        TaskState::AgentWorking { stage: owned(stage) }
    }

    pub fn awaiting_approval(stage: &str) -> (r: TaskState)
        ensures
            r matches TaskState::AwaitingApproval { stage: s } && s@ == stage@,
    {
        TaskState::AwaitingApproval { stage: owned(stage) }
    }

    pub fn awaiting_question_answer(stage: &str) -> (r: TaskState)
        ensures
            r matches TaskState::AwaitingQuestionAnswer { stage: s } && s@ == stage@,
    {
        TaskState::AwaitingQuestionAnswer { stage: owned(stage) }
    }

    pub fn awaiting_rejection_confirmation(stage: &str) -> (r: TaskState)
        ensures
            r matches TaskState::AwaitingRejectionConfirmation { stage: s } && s@ == stage@,
    {
        TaskState::AwaitingRejectionConfirmation { stage: owned(stage) }
    }

    pub fn interrupted(stage: &str) -> (r: TaskState)
        ensures
            r matches TaskState::Interrupted { stage: s } && s@ == stage@,
    {
        TaskState::Interrupted { stage: owned(stage) }
    }

    pub fn finishing(stage: &str) -> (r: TaskState)
        ensures
            r matches TaskState::Finishing { stage: s } && s@ == stage@,
    {
        TaskState::Finishing { stage: owned(stage) }
    }

    pub fn committing(stage: &str) -> (r: TaskState)
        ensures
            r matches TaskState::Committing { stage: s } && s@ == stage@,
    {
        TaskState::Committing { stage: owned(stage) }
    }

    pub fn committed(stage: &str) -> (r: TaskState)
        ensures
            r matches TaskState::Committed { stage: s } && s@ == stage@,
    {
        TaskState::Committed { stage: owned(stage) }
    }

    pub fn waiting_on_children(stage: &str) -> (r: TaskState)
        ensures
            r matches TaskState::WaitingOnChildren { stage: s } && s@ == stage@,
    {
        TaskState::WaitingOnChildren { stage: owned(stage) }
    }

    pub fn failed(error: &str) -> (r: TaskState)
        ensures
            r matches TaskState::Failed { stage: None, error: e } && e@ == error@,
    {
        TaskState::Failed { stage: None, error: owned(error) }
    }

    pub fn failed_at(stage: &str, error: &str) -> (r: TaskState)
        ensures
            r matches TaskState::Failed { stage: Some(s), error: e } && s@ == stage@ && e@ == error@,
    {
        TaskState::Failed { stage: Some(owned(stage)), error: owned(error) }
    }

    pub fn blocked(reason: &str) -> (r: TaskState)
        ensures
            r matches TaskState::Blocked { stage: None, reason: e } && e@ == reason@,
    {
        TaskState::Blocked { stage: None, reason: owned(reason) }
    }

    pub fn blocked_at(stage: &str, reason: &str) -> (r: TaskState)
        ensures
            r matches TaskState::Blocked { stage: Some(s), reason: e } && s@ == stage@ && e@ == reason@,
    {
        TaskState::Blocked { stage: Some(owned(stage)), reason: owned(reason) }
    }

    /// A copy equal to `self`.
    pub fn duplicate(&self) -> (r: TaskState)
        ensures
            r == *self,
    {
        match self {
            TaskState::Queued { stage } => TaskState::Queued { stage: stage.clone() },
            TaskState::AwaitingSetup { stage } => TaskState::AwaitingSetup { stage: stage.clone() },
            TaskState::SettingUp { stage } => TaskState::SettingUp { stage: stage.clone() },
            TaskState::AgentWorking { stage } => TaskState::AgentWorking { stage: stage.clone() },
            TaskState::AwaitingApproval { stage } => TaskState::AwaitingApproval { stage: stage.clone() },
            TaskState::AwaitingQuestionAnswer { stage } => TaskState::AwaitingQuestionAnswer { stage: stage.clone() },
            TaskState::AwaitingRejectionConfirmation { stage } => TaskState::AwaitingRejectionConfirmation { stage: stage.clone() },
            TaskState::Interrupted { stage } => TaskState::Interrupted { stage: stage.clone() },
            TaskState::Finishing { stage } => TaskState::Finishing { stage: stage.clone() },
            TaskState::Committing { stage } => TaskState::Committing { stage: stage.clone() },
            TaskState::Committed { stage } => TaskState::Committed { stage: stage.clone() },
            TaskState::Integrating => TaskState::Integrating,
            TaskState::WaitingOnChildren { stage } => TaskState::WaitingOnChildren { stage: stage.clone() },
            TaskState::Done => TaskState::Done,
            TaskState::Archived => TaskState::Archived,
            TaskState::Failed { stage, error } => TaskState::Failed { stage: clone_opt_string(stage), error: error.clone() },
            TaskState::Blocked { stage, reason } => TaskState::Blocked { stage: clone_opt_string(stage), reason: reason.clone() },
        }
    }
}

/// A copy of an optional string.
pub fn clone_opt_string(o: &Option<String>) -> (r: Option<String>)
    ensures
        r == *o,
{
    match o {
        Some(s) => Some(s.clone()),
        None => None,
    }
}

/// A copy of a vector of strings.
pub fn clone_strings(v: &Vec<String>) -> (r: Vec<String>)
    ensures
        r@ == v@,
{
    let mut r: Vec<String> = Vec::new();
    let mut i: usize = 0;
    while i < v.len()
        invariant
            i <= v.len(),
            r@ == v@.take(i as int),
        decreases v.len() - i,
    {
        r.push(v[i].clone());
        assert(v@.take(i + 1) =~= v@.take(i as int).push(v@[i as int]));
        i = i + 1;
    }
    assert(v@.take(v.len() as int) =~= v@);
    r
}

/// How an iteration ended.
#[derive(Debug, Clone, PartialEq)]
pub enum Outcome {
    /// Output approved.
    Approved,
    /// A human rejected the output of `stage`.
    Rejected { stage: String, feedback: String },
    /// The approving agent in `from_stage` rejected and routed work to `target`.
    Rejection { from_stage: String, target: String, feedback: String },
    /// The agent asked questions in `stage`.
    AwaitingAnswers { stage: String, questions: Vec<Question> },
    /// An agent's rejection waiting for human confirmation.
    AwaitingRejectionReview { from_stage: String, target: String, feedback: String },
    /// The agent failed.
    AgentError { error: String },
    /// The agent reported the task as blocked.
    Blocked { reason: String },
    /// Committing the stage's changes failed.
    CommitFailed { error: String },
}

impl Outcome {
    pub open spec fn spec_feedback(&self) -> Option<Seq<char>> {
        match self {
            Outcome::Rejected { feedback, .. } => Some(feedback@),
            Outcome::Rejection { feedback, .. } => Some(feedback@),
            _ => None,
        }
    }

    pub fn rejected(stage: &str, feedback: &str) -> (r: Outcome)
        ensures
            r matches Outcome::Rejected { stage: s, feedback: f } && s@ == stage@ && f@ == feedback@,
    {
        Outcome::Rejected { stage: owned(stage), feedback: owned(feedback) }
    }

    pub fn rejection(from_stage: &str, target: &str, feedback: &str) -> (r: Outcome)
        ensures
            r matches Outcome::Rejection { from_stage: s, target: t, feedback: f }
                && s@ == from_stage@ && t@ == target@ && f@ == feedback@,
    {
        Outcome::Rejection { from_stage: owned(from_stage), target: owned(target), feedback: owned(feedback) }
    }

    pub fn awaiting_answers(stage: &str, questions: Vec<Question>) -> (r: Outcome)
        ensures
            r matches Outcome::AwaitingAnswers { stage: s, questions: q } && s@ == stage@ && q == questions,
    {
        Outcome::AwaitingAnswers { stage: owned(stage), questions }
    }

    pub fn awaiting_rejection_review(from_stage: &str, target: &str, feedback: &str) -> (r: Outcome)
        ensures
            r matches Outcome::AwaitingRejectionReview { from_stage: s, target: t, feedback: f }
                && s@ == from_stage@ && t@ == target@ && f@ == feedback@,
    {
        Outcome::AwaitingRejectionReview {
            from_stage: owned(from_stage),
            target: owned(target),
            feedback: owned(feedback),
        }
    }

    /// The rejection feedback carried by the outcome, if any.
    pub fn feedback(&self) -> (r: Option<&str>)
        ensures
            match r {
                Some(f) => self.spec_feedback() == Some(f@),
                None => self.spec_feedback() is None,
            },
    {
        match self {
            Outcome::Rejected { feedback, .. } => Some(feedback.as_str()),
            Outcome::Rejection { feedback, .. } => Some(feedback.as_str()),
            _ => None,
        }
    }

    /// A copy holding the same data as `self`.
    pub fn duplicate(&self) -> (r: Outcome)
        ensures
            same_outcome(r, *self),
    {
        match self {
            Outcome::Approved => Outcome::Approved,
            Outcome::Rejected { stage, feedback } => Outcome::Rejected { stage: stage.clone(), feedback: feedback.clone() },
            Outcome::Rejection { from_stage, target, feedback } => Outcome::Rejection {
                from_stage: from_stage.clone(),
                target: target.clone(),
                feedback: feedback.clone(),
            },
            Outcome::AwaitingAnswers { stage, questions } => Outcome::AwaitingAnswers {
                stage: stage.clone(),
                questions: clone_questions(questions),
            },
            Outcome::AwaitingRejectionReview { from_stage, target, feedback } => Outcome::AwaitingRejectionReview {
                from_stage: from_stage.clone(),
                target: target.clone(),
                feedback: feedback.clone(),
            },
            Outcome::AgentError { error } => Outcome::AgentError { error: error.clone() },
            Outcome::Blocked { reason } => Outcome::Blocked { reason: reason.clone() },
            Outcome::CommitFailed { error } => Outcome::CommitFailed { error: error.clone() },
        }
    }
}

/// Two outcomes hold the same data.
pub open spec fn same_outcome(a: Outcome, b: Outcome) -> bool {
    match (a, b) {
        (Outcome::AwaitingAnswers { stage: s1, questions: q1 }, Outcome::AwaitingAnswers { stage: s2, questions: q2 }) =>
            s1 == s2 && same_questions(q1@, q2@),
        _ => a == b,
    }
}

/// Two optional outcomes hold the same data.
pub open spec fn same_opt_outcome(a: Option<Outcome>, b: Option<Outcome>) -> bool {
    match (a, b) {
        (Some(x), Some(y)) => same_outcome(x, y),
        (None, None) => true,
        _ => false,
    }
}

/// Coarse phase of a task as stored by the persistence layer.
#[derive(Debug, Clone, Copy, PartialEq, Eq)]
pub enum Phase {
    SettingUp,
    Idle,
    AgentWorking,
    AwaitingReview,
    Integrating,
}

/// Storage text of a phase.
pub open spec fn phase_text(p: Phase) -> Seq<char> {
    match p {
        Phase::SettingUp => "setting_up"@,
        Phase::Idle => "idle"@,
        Phase::AgentWorking => "agent_working"@,
        Phase::AwaitingReview => "awaiting_review"@,
        Phase::Integrating => "integrating"@,
    }
}

/// Phase named by storage text; unknown text reads as `Idle`.
pub open spec fn phase_from_text(s: Seq<char>) -> Phase {
    if s == "setting_up"@ {
        Phase::SettingUp
    } else if s == "agent_working"@ {
        Phase::AgentWorking
    } else if s == "awaiting_review"@ {
        Phase::AwaitingReview
    } else if s == "integrating"@ {
        Phase::Integrating
    } else {
        Phase::Idle
    }
}

/// Storage text of a phase.
pub fn phase_to_str(phase: Phase) -> (r: &'static str)
    ensures
        r@ == phase_text(phase),
{
    match phase {
        Phase::SettingUp => "setting_up",
        Phase::Idle => "idle",
        Phase::AgentWorking => "agent_working",
        Phase::AwaitingReview => "awaiting_review",
        Phase::Integrating => "integrating",
    }
}

/// Phase named by storage text; unknown text reads as `Idle`.
pub fn parse_phase(s: &str) -> (r: Phase)
    ensures
        r == phase_from_text(s@),
{
    if str_eq(s, "setting_up") {
        Phase::SettingUp
    } else if str_eq(s, "agent_working") {
        Phase::AgentWorking
    } else if str_eq(s, "awaiting_review") {
        Phase::AwaitingReview
    } else if str_eq(s, "integrating") {
        Phase::Integrating
    } else {
        Phase::Idle
    }
}

/// Reading back the storage text of a phase gives the same phase.
pub proof fn law_phase_round_trip(p: Phase)
    ensures
        phase_from_text(phase_text(p)) == p,
{
    reveal_strlit("setting_up");
    reveal_strlit("idle");
    reveal_strlit("agent_working");
    reveal_strlit("awaiting_review");
    reveal_strlit("integrating");
    assert("setting_up"@.len() == 10);
    assert("idle"@.len() == 4);
    assert("agent_working"@.len() == 13);
    assert("awaiting_review"@.len() == 15);
    assert("integrating"@.len() == 11);
    assert("agent_working"@[0] != "awaiting_review"@[1]);
    assert("agent_working"@ != "awaiting_review"@) by {
        assert("agent_working"@[1] != "awaiting_review"@[1]);
    }
}

/// A named output of a stage.
#[derive(Debug, Clone, PartialEq)]
pub struct Artifact {
    pub name: String,
    pub content: String,
    pub stage: String,
    pub created_at: String,
}

impl Artifact {
    pub fn new(name: &str, content: &str, stage: &str, created_at: &str) -> (r: Artifact)
        ensures
            r.name@ == name@,
            r.content@ == content@,
            r.stage@ == stage@,
            r.created_at@ == created_at@,
    {
        Artifact { name: owned(name), content: owned(content), stage: owned(stage), created_at: owned(created_at) }
    }

    pub fn duplicate(&self) -> (r: Artifact)
        ensures
            r == *self,
    {
        Artifact {
            name: self.name.clone(),
            content: self.content.clone(),
            stage: self.stage.clone(),
            created_at: self.created_at.clone(),
        }
    }
}

/// The first artifact in `s` with the given name.
pub open spec fn artifact_lookup(s: Seq<Artifact>, name: Seq<char>) -> Option<Artifact>
    decreases s.len(),
{
    if s.len() == 0 {
        None
    } else if s[0].name@ == name {
        Some(s[0])
    } else {
        artifact_lookup(s.drop_first(), name)
    }
}

/// Stage outputs keyed by artifact name, kept in the order they were first set.
#[derive(Debug, Clone, PartialEq)]
pub struct ArtifactStore {
    entries: Vec<Artifact>,
}

impl View for ArtifactStore {
    type V = Seq<Artifact>;

    closed spec fn view(&self) -> Seq<Artifact> {
        self.entries@
    }
}

/// Replaces the first artifact named like `a`, or appends `a`.
pub open spec fn artifacts_set(s: Seq<Artifact>, a: Artifact) -> Seq<Artifact>
    decreases s.len(),
{
    if s.len() == 0 {
        seq![a]
    } else if s[0].name@ == a.name@ {
        s.update(0, a)
    } else {
        seq![s[0]] + artifacts_set(s.drop_first(), a)
    }
}

/// The artifacts of `s` not named `name`, in order.
pub open spec fn artifacts_without(s: Seq<Artifact>, name: Seq<char>) -> Seq<Artifact>
    decreases s.len(),
{
    if s.len() == 0 {
        s
    } else if s.last().name@ == name {
        artifacts_without(s.drop_last(), name)
    } else {
        artifacts_without(s.drop_last(), name).push(s.last())
    }
}

pub proof fn lemma_artifact_lookup_index(s: Seq<Artifact>, name: Seq<char>, i: int)
    requires
        0 <= i < s.len(),
        s[i].name@ == name,
        forall|j: int| 0 <= j < i ==> s[j].name@ != name,
    ensures
        artifact_lookup(s, name) == Some(s[i]),
    decreases i,
{
    if i > 0 {
        lemma_artifact_lookup_index(s.drop_first(), name, i - 1);
    }
}

pub proof fn lemma_artifact_lookup_none(s: Seq<Artifact>, name: Seq<char>)
    requires
        forall|j: int| 0 <= j < s.len() ==> s[j].name@ != name,
    ensures
        artifact_lookup(s, name) is None,
    decreases s.len(),
{
    if s.len() > 0 {
        lemma_artifact_lookup_none(s.drop_first(), name);
    }
}

pub proof fn lemma_artifacts_set_at(s: Seq<Artifact>, a: Artifact, i: int)
    requires
        0 <= i < s.len(),
        s[i].name@ == a.name@,
        forall|j: int| 0 <= j < i ==> s[j].name@ != a.name@,
    ensures
        artifacts_set(s, a) == s.update(i, a),
    decreases i,
{
    if i > 0 {
        lemma_artifacts_set_at(s.drop_first(), a, i - 1);
        assert(seq![s[0]] + s.drop_first().update(i - 1, a) =~= s.update(i, a));
    }
}

pub proof fn lemma_artifacts_set_append(s: Seq<Artifact>, a: Artifact)
    requires
        forall|j: int| 0 <= j < s.len() ==> s[j].name@ != a.name@,
    ensures
        artifacts_set(s, a) == s.push(a),
    decreases s.len(),
{
    if s.len() > 0 {
        lemma_artifacts_set_append(s.drop_first(), a);
        assert(seq![s[0]] + s.drop_first().push(a) =~= s.push(a));
    }
}

pub proof fn lemma_lookup_after_set(s: Seq<Artifact>, a: Artifact, name: Seq<char>)
    ensures
        artifact_lookup(artifacts_set(s, a), name) == if name == a.name@ {
            Some(a)
        } else {
            artifact_lookup(s, name)
        },
    decreases s.len(),
{
    if s.len() > 0 {
        if s[0].name@ != a.name@ {
            lemma_lookup_after_set(s.drop_first(), a, name);
            let t = seq![s[0]] + artifacts_set(s.drop_first(), a);
            assert(t[0] == s[0]);
            assert(t.drop_first() =~= artifacts_set(s.drop_first(), a));
        } else {
            let t = s.update(0, a);
            assert(t[0] == a);
            assert(t.drop_first() =~= s.drop_first());
        }
    } else {
        let t = seq![a];
        assert(t[0] == a);
        assert(t.drop_first() =~= Seq::<Artifact>::empty());
        assert(artifact_lookup(t.drop_first(), name) is None);
        assert(artifacts_set(s, a) == t);
    }
}

impl ArtifactStore {
    /// An empty store.
    pub fn new() -> (r: ArtifactStore)
        ensures
            r@ == Seq::<Artifact>::empty(),
    {
        ArtifactStore { entries: Vec::new() }
    }

    /// Stores `artifact`, replacing any artifact of the same name.
    pub fn set(&mut self, artifact: Artifact)
        ensures
            final(self)@ == artifacts_set(old(self)@, artifact),
    {
        let mut i: usize = 0;
        while i < self.entries.len()
            invariant
                i <= self.entries.len(),
                self.entries@ == old(self)@,
                forall|j: int| 0 <= j < i ==> self.entries@[j].name@ != artifact.name@,
            decreases self.entries.len() - i,
        {
            if self.entries[i].name == artifact.name {
                proof {
                    lemma_artifacts_set_at(self.entries@, artifact, i as int);
                }
                self.entries.set(i, artifact);
                return;
            }
            i = i + 1;
        }
        proof {
            lemma_artifacts_set_append(self.entries@, artifact);
        }
        self.entries.push(artifact);
    }

    /// Content of the artifact with the given name.
    pub fn content(&self, name: &str) -> (r: Option<&str>)
        ensures
            match artifact_lookup(self@, name@) {
                Some(a) => r is Some && r.unwrap()@ == a.content@,
                None => r is None,
            },
    {
        match self.get(name) {
            Some(a) => Some(a.content.as_str()),
            None => None,
        }
    }

    /// The artifact with the given name.
    pub fn get(&self, name: &str) -> (r: Option<&Artifact>)
        ensures
            match artifact_lookup(self@, name@) {
                Some(a) => r == Some(&a),
                None => r is None,
            },
    {
        let mut i: usize = 0;
        while i < self.entries.len()
            invariant
                i <= self.entries.len(),
                forall|j: int| 0 <= j < i ==> self.entries@[j].name@ != name@,
            decreases self.entries.len() - i,
        {
            if str_eq(self.entries[i].name.as_str(), name) {
                proof {
                    lemma_artifact_lookup_index(self.entries@, name@, i as int);
                }
                return Some(&self.entries[i]);
            }
            i = i + 1;
        }
        proof {
            lemma_artifact_lookup_none(self.entries@, name@);
        }
        None
    }

    /// Removes every artifact with the given name.
    pub fn remove(&mut self, name: &str)
        ensures
            final(self)@ == artifacts_without(old(self)@, name@),
    {
        let mut kept: Vec<Artifact> = Vec::new();
        let mut i: usize = 0;
        while i < self.entries.len()
            invariant
                i <= self.entries.len(),
                self.entries@ == old(self)@,
                kept@ == artifacts_without(self.entries@.take(i as int), name@),
            decreases self.entries.len() - i,
        {
            let ghost before = kept@;
            if !str_eq(self.entries[i].name.as_str(), name) {
                kept.push(self.entries[i].duplicate());
            }
            proof {
                let t = self.entries@.take(i + 1);
                assert(t.drop_last() =~= self.entries@.take(i as int));
                assert(t.last() == self.entries@[i as int]);
                assert(kept@ == artifacts_without(t, name@));
            }
            i = i + 1;
        }
        assert(self.entries@.take(self.entries.len() as int) =~= self.entries@);
        self.entries = kept;
    }

    /// Whether the store holds no artifacts.
    pub fn is_empty(&self) -> (r: bool)
        ensures
            r == (self@.len() == 0),
    {
        self.entries.len() == 0
    }

    /// Number of artifacts.
    pub fn len(&self) -> (r: usize)
        ensures
            r == self@.len(),
    {
        self.entries.len()
    }

    /// All artifacts, in the order they were first set.
    pub fn all(&self) -> (r: &Vec<Artifact>)
        ensures
            r@ == self@,
    {
        &self.entries
    }

    /// A copy equal to `self`.
    pub fn duplicate(&self) -> (r: ArtifactStore)
        ensures
            r@ == self@,
    {
        let mut out: Vec<Artifact> = Vec::new();
        let mut i: usize = 0;
        while i < self.entries.len()
            invariant
                i <= self.entries.len(),
                out@ == self.entries@.take(i as int),
            decreases self.entries.len() - i,
        {
            out.push(self.entries[i].duplicate());
            assert(self.entries@.take(i + 1) =~= self.entries@.take(i as int).push(self.entries@[i as int]));
            i = i + 1;
        }
        assert(self.entries@.take(self.entries.len() as int) =~= self.entries@);
        ArtifactStore { entries: out }
    }
}

/// Reading an artifact just stored gives its content; other names are unaffected.
pub proof fn law_artifact_read_after_set(s: Seq<Artifact>, a: Artifact, name: Seq<char>)
    ensures
        artifact_lookup(artifacts_set(s, a), a.name@) == Some(a),
        name != a.name@ ==> artifact_lookup(artifacts_set(s, a), name) == artifact_lookup(s, name),
{
    lemma_lookup_after_set(s, a, a.name@);
    lemma_lookup_after_set(s, a, name);
}

} // verus!
