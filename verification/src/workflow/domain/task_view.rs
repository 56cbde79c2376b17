//! Rich task view: a task with its iterations and sessions, plus state
//! derived from them so the frontend only renders.

use vstd::prelude::*;

use crate::text::{owned, str_eq, str_lt, text_le, text_lt};
use crate::workflow::domain::iteration::Iteration;
use crate::workflow::domain::question::{clone_questions, same_questions, Question};
use crate::workflow::domain::sorting::{insert_sorted, lemma_insert_sorted_at, stable_sort};
use crate::workflow::domain::stage_session::{SessionState, StageSession};
use crate::workflow::domain::task::Task;
use crate::workflow::runtime::{Outcome, TaskState};

verus! {

/// A task with pre-joined data and derived state.
#[derive(Debug, Clone)]
pub struct TaskView {
    pub task: Task,
    pub iterations: Vec<Iteration>,
    pub stage_sessions: Vec<StageSession>,
    pub derived: DerivedTaskState,
}

/// State derived from a task, its iterations and sessions.
#[derive(Debug, Clone)]
pub struct DerivedTaskState {
    pub current_stage: Option<String>,
    pub is_working: bool,
    pub is_system_active: bool,
    pub phase_icon: Option<String>,
    pub is_interrupted: bool,
    pub is_failed: bool,
    pub is_blocked: bool,
    pub is_done: bool,
    pub is_archived: bool,
    pub is_terminal: bool,
    pub is_waiting_on_children: bool,
    pub needs_review: bool,
    pub has_questions: bool,
    pub pending_questions: Vec<Question>,
    pub rejection_feedback: Option<String>,
    pub pending_rejection: Option<PendingRejection>,
    pub stages_with_logs: Vec<StageLogInfo>,
    pub subtask_progress: Option<SubtaskProgress>,
}

/// An agent's rejection waiting for human confirmation.
#[derive(Debug, Clone, PartialEq)]
pub struct PendingRejection {
    /// Stage that produced the rejection.
    pub from_stage: String,
    /// Stage the rejection would send work to.
    pub target: String,
    pub feedback: String,
}

/// Subtask counts per state; each subtask is counted once.
#[derive(Debug, Clone, Copy, PartialEq, Eq)]
pub struct SubtaskProgress {
    pub total: usize,
    pub done: usize,
    pub failed: usize,
    pub blocked: usize,
    pub interrupted: usize,
    pub has_questions: usize,
    pub needs_review: usize,
    pub working: usize,
    /// Idle or waiting: none of the above.
    pub waiting: usize,
}

/// One session of a stage, for log display.
#[derive(Debug, Clone, PartialEq)]
pub struct SessionLogInfo {
    pub session_id: String,
    /// 1-based run number within the stage, by creation time.
    pub run_number: u32,
    /// Not superseded.
    pub is_current: bool,
    pub created_at: String,
}

/// A stage's sessions, for log display.
#[derive(Debug, Clone)]
pub struct StageLogInfo {
    pub stage: String,
    /// All sessions of the stage, oldest first.
    pub sessions: Vec<SessionLogInfo>,
}

// ---------------------------------------------------------------------------
// Spec model
// ---------------------------------------------------------------------------

/// Index of the latest iteration of `stage`: the highest iteration number,
/// the last one among equals (as `Iterator::max_by_key` picks).
pub open spec fn latest_index(s: Seq<Iteration>, stage: Seq<char>) -> Option<int>
    decreases s.len(),
{
    if s.len() == 0 {
        None
    } else {
        let r = latest_index(s.drop_last(), stage);
        if s.last().stage@ == stage && (r is None || s[r.unwrap()].iteration_number <= s.last().iteration_number) {
            Some(s.len() - 1)
        } else {
            r
        }
    }
}

/// The iteration whose questions and pending rejection a task view shows is
/// one of the stage's iterations with the highest number (and the last of
/// those): no iteration of the stage has a higher number, and none after it
/// has the same. A stage with any iteration has one.
pub proof fn law_latest_index_is_highest(s: Seq<Iteration>, stage: Seq<char>)
    ensures
        match latest_index(s, stage) {
            Some(i) => {
                &&& 0 <= i < s.len()
                &&& s[i].stage@ == stage
                &&& forall|j: int| 0 <= j < s.len() && (#[trigger] s[j]).stage@ == stage ==> s[j].iteration_number
                    <= s[i].iteration_number
                &&& forall|j: int| i < j < s.len() && (#[trigger] s[j]).stage@ == stage ==> s[j].iteration_number
                    < s[i].iteration_number
            },
            None => forall|j: int| 0 <= j < s.len() ==> (#[trigger] s[j]).stage@ != stage,
        },
    decreases s.len(),
{
    if s.len() > 0 {
        let t = s.drop_last();
        law_latest_index_is_highest(t, stage);
        assert forall|j: int| 0 <= j < t.len() implies #[trigger] s[j] == t[j] by {}
        assert(s[s.len() - 1] == s.last());
    }
}

/// The questions a task view shows as pending are those its current stage's
/// highest-numbered iteration is waiting on.
pub proof fn law_pending_questions_from_latest(task: Task, s: Seq<Iteration>)
    ensures
        pending_questions_of(task, s) matches Some(q) ==> exists|i: int|
            #![trigger s[i]]
            0 <= i < s.len() && task.state.spec_stage() == Some(s[i].stage@)
                && (s[i].outcome matches Some(Outcome::AwaitingAnswers { questions, .. }) && questions@ == q)
                && forall|j: int| 0 <= j < s.len() && (#[trigger] s[j]).stage@ == s[i].stage@
                    ==> s[j].iteration_number <= s[i].iteration_number,
{
    match task.state.spec_stage() {
        Some(stage) => {
            law_latest_index_is_highest(s, stage);
            match latest_index(s, stage) {
                Some(i) => {
                    assert(s[i].stage@ == stage);
                },
                None => {},
            }
        },
        None => {},
    }
}

/// The rejection feedback a task view shows comes from an iteration of the
/// stage whose outcome carries feedback, and no later iteration of the stage
/// carries any; there is none only when no iteration of the stage does.
pub proof fn law_feedback_from_last_rejection(s: Seq<Iteration>, stage: Seq<char>)
    ensures
        match last_feedback_index(s, stage) {
            Some(i) => {
                &&& 0 <= i < s.len()
                &&& s[i].stage@ == stage
                &&& s[i].outcome matches Some(o) && o.spec_feedback() is Some
                &&& forall|j: int| i < j < s.len() && (#[trigger] s[j]).stage@ == stage ==> !(s[j].outcome matches Some(
                    o,
                ) && o.spec_feedback() is Some)
            },
            None => forall|j: int| 0 <= j < s.len() && (#[trigger] s[j]).stage@ == stage ==> !(s[j].outcome matches Some(
                o,
            ) && o.spec_feedback() is Some),
        },
    decreases s.len(),
{
    if s.len() > 0 {
        let t = s.drop_last();
        law_feedback_from_last_rejection(t, stage);
        assert forall|j: int| 0 <= j < t.len() implies #[trigger] s[j] == t[j] by {}
        assert(s[s.len() - 1] == s.last());
    }
}

/// Index of the last iteration of `stage` whose outcome carries rejection feedback.
pub open spec fn last_feedback_index(s: Seq<Iteration>, stage: Seq<char>) -> Option<int>
    decreases s.len(),
{
    if s.len() == 0 {
        None
    } else if s.last().stage@ == stage && s.last().outcome is Some && s.last().outcome.unwrap().spec_feedback() is Some {
        Some(s.len() - 1)
    } else {
        last_feedback_index(s.drop_last(), stage)
    }
}

pub proof fn lemma_latest_index(s: Seq<Iteration>, stage: Seq<char>)
    ensures
        latest_index(s, stage) matches Some(i) ==> 0 <= i < s.len() && s[i].stage@ == stage,
    decreases s.len(),
{
    if s.len() > 0 {
        lemma_latest_index(s.drop_last(), stage);
    }
}

pub proof fn lemma_last_feedback_index(s: Seq<Iteration>, stage: Seq<char>)
    ensures
        last_feedback_index(s, stage) matches Some(i) ==> 0 <= i < s.len() && s[i].stage@ == stage
            && s[i].outcome is Some && s[i].outcome.unwrap().spec_feedback() is Some,
    decreases s.len(),
{
    if s.len() > 0 {
        lemma_last_feedback_index(s.drop_last(), stage);
    }
}

/// Questions pending for the task's current stage.
pub open spec fn pending_questions_of(task: Task, s: Seq<Iteration>) -> Option<Seq<Question>> {
    match task.state.spec_stage() {
        None => None,
        Some(stage) => match latest_index(s, stage) {
            Some(i) => match s[i].outcome {
                Some(Outcome::AwaitingAnswers { questions, .. }) => Some(questions@),
                _ => None,
            },
            None => None,
        },
    }
}

/// The rejection waiting for confirmation in the task's current stage.
pub open spec fn pending_rejection_of(task: Task, s: Seq<Iteration>) -> Option<(Seq<char>, Seq<char>, Seq<char>)> {
    match task.state.spec_stage() {
        None => None,
        Some(stage) => match latest_index(s, stage) {
            Some(i) => match s[i].outcome {
                Some(Outcome::AwaitingRejectionReview { from_stage, target, feedback }) =>
                    Some((from_stage@, target@, feedback@)),
                _ => None,
            },
            None => None,
        },
    }
}

/// The most recent rejection feedback of the task's current stage.
pub open spec fn rejection_feedback_of(task: Task, s: Seq<Iteration>) -> Option<Seq<char>> {
    match task.state.spec_stage() {
        None => None,
        Some(stage) => match last_feedback_index(s, stage) {
            Some(i) => s[i].outcome.unwrap().spec_feedback(),
            None => None,
        },
    }
}

/// Icon tag for the frontend; `None` when no phase icon applies.
pub open spec fn phase_icon_of(state: TaskState) -> Option<Seq<char>> {
    if state.spec_is_terminal() {
        None
    } else {
        match state {
            TaskState::Committing { .. } => Some("committing"@),
            TaskState::Integrating => Some("integrating"@),
            TaskState::SettingUp { .. } => Some("setting_up"@),
            TaskState::AwaitingSetup { .. } => Some("awaiting_setup"@),
            TaskState::Finishing { .. } => Some("system_busy"@),
            TaskState::Committed { .. } => Some("system_busy"@),
            TaskState::Queued { .. } => Some("waiting_for_orchestrator"@),
            _ => None,
        }
    }
}

/// The distinct stages of `s`, in order of first appearance.
pub open spec fn distinct_stages(s: Seq<StageSession>) -> Seq<Seq<char>>
    decreases s.len(),
{
    if s.len() == 0 {
        Seq::empty()
    } else {
        let d = distinct_stages(s.drop_last());
        if d.contains(s.last().stage@) {
            d
        } else {
            d.push(s.last().stage@)
        }
    }
}

/// The sessions of `stage`, in order.
pub open spec fn sessions_of_stage(s: Seq<StageSession>, stage: Seq<char>) -> Seq<StageSession>
    decreases s.len(),
{
    if s.len() == 0 {
        s
    } else if s.last().stage@ == stage {
        sessions_of_stage(s.drop_last(), stage).push(s.last())
    } else {
        sessions_of_stage(s.drop_last(), stage)
    }
}

/// Sort key of a session: its creation time.
pub open spec fn created_key() -> spec_fn(StageSession) -> Seq<char> {
    |s: StageSession| s.created_at@
}

/// Log info of the `i`-th session of a stage, sessions oldest first.
pub open spec fn session_info(sorted: Seq<StageSession>, i: int) -> SessionLogInfo {
    SessionLogInfo {
        session_id: sorted[i].id,
        run_number: (i + 1) as u32,
        is_current: sorted[i].session_state != SessionState::Superseded,
        created_at: sorted[i].created_at,
    }
}

/// What a stage's log group holds: its name and the infos of its sessions.
pub type LogGroup = (Seq<char>, Seq<SessionLogInfo>);

pub open spec fn log_view(g: StageLogInfo) -> LogGroup {
    (g.stage@, g.sessions@)
}

/// The log group of a stage.
pub open spec fn group_of(s: Seq<StageSession>, stage: Seq<char>) -> LogGroup {
    let sorted = stable_sort(sessions_of_stage(s, stage), created_key());
    (stage, Seq::new(sorted.len(), |i: int| session_info(sorted, i)))
}

/// Sort key of a group: the creation time of its oldest session.
pub open spec fn group_key() -> spec_fn(LogGroup) -> Seq<char> {
    |g: LogGroup| if g.1.len() > 0 { g.1[0].created_at@ } else { Seq::<char>::empty() }
}

/// Sessions grouped by stage, each group oldest first, groups ordered by
/// their oldest session (ties in order of first appearance).
pub open spec fn stage_logs_of(s: Seq<StageSession>) -> Seq<LogGroup> {
    let d = distinct_stages(s);
    stable_sort(Seq::new(d.len(), |k: int| group_of(s, d[k])), group_key())
}

/// The progress bucket of a subtask, checked in priority order:
/// 0 done, 1 failed, 2 blocked, 3 interrupted, 4 questions, 5 review, 6 working, 7 waiting.
pub open spec fn progress_bucket(d: DerivedTaskState) -> nat {
    if d.is_done || d.is_archived {
        0
    } else if d.is_failed {
        1
    } else if d.is_blocked {
        2
    } else if d.is_interrupted {
        3
    } else if d.has_questions {
        4
    } else if d.needs_review {
        5
    } else if d.is_working || d.is_system_active {
        6
    } else {
        7
    }
}

/// Number of subtasks of `s` in bucket `b`.
pub open spec fn bucket_count(s: Seq<DerivedTaskState>, b: nat) -> nat
    decreases s.len(),
{
    if s.len() == 0 {
        0
    } else {
        bucket_count(s.drop_last(), b) + if progress_bucket(s.last()) == b { 1nat } else { 0nat }
    }
}

/// The progress summary of a non-empty list of subtask states.
pub open spec fn progress_of(s: Seq<DerivedTaskState>) -> Option<SubtaskProgress> {
    if s.len() == 0 {
        None
    } else {
        Some(SubtaskProgress {
            total: s.len() as usize,
            done: bucket_count(s, 0) as usize,
            failed: bucket_count(s, 1) as usize,
            blocked: bucket_count(s, 2) as usize,
            interrupted: bucket_count(s, 3) as usize,
            has_questions: bucket_count(s, 4) as usize,
            needs_review: bucket_count(s, 5) as usize,
            working: bucket_count(s, 6) as usize,
            waiting: bucket_count(s, 7) as usize,
        })
    }
}

pub open spec fn opt_view(o: Option<String>) -> Option<Seq<char>> {
    match o {
        Some(s) => Some(s@),
        None => None,
    }
}

// ---------------------------------------------------------------------------
// Derivation
// ---------------------------------------------------------------------------

impl DerivedTaskState {
    /// Derives the frontend state of `task` from its iterations, sessions,
    /// and the derived states of its subtasks.
    pub fn build(
        task: &Task,
        iterations: &[Iteration],
        sessions: &[StageSession],
        subtask_states: &[DerivedTaskState],
    ) -> (r: DerivedTaskState)
        ensures
            opt_view(r.current_stage) == task.state.spec_stage(),
            r.is_working == (!task.state.spec_is_terminal() && task.state.spec_has_active_agent()),
            r.is_system_active == (!task.state.spec_is_terminal() && task.state.spec_is_system_active()),
            opt_view(r.phase_icon) == phase_icon_of(task.state),
            r.is_interrupted == (task.state is Interrupted),
            r.is_failed == (task.state is Failed),
            r.is_blocked == (task.state is Blocked),
            r.is_done == (task.state is Done),
            r.is_archived == (task.state is Archived),
            r.is_terminal == task.state.spec_is_terminal(),
            r.is_waiting_on_children == (task.state is WaitingOnChildren),
            r.needs_review == (task.state.spec_needs_human() && task.state.spec_stage() is Some),
            match pending_questions_of(*task, iterations@) {
                Some(q) => same_questions(r.pending_questions@, q),
                None => r.pending_questions@.len() == 0,
            },
            r.has_questions == (r.pending_questions@.len() > 0),
            opt_view(r.rejection_feedback) == rejection_feedback_of(*task, iterations@),
            match pending_rejection_of(*task, iterations@) {
                Some((f, t, fb)) => r.pending_rejection matches Some(p)
                    && p.from_stage@ == f && p.target@ == t && p.feedback@ == fb,
                None => r.pending_rejection is None,
            },
            r.stages_with_logs@.map_values(|g: StageLogInfo| log_view(g)) == stage_logs_of(sessions@),
            r.subtask_progress == progress_of(subtask_states@),
    {
        let pending_questions = extract_pending_questions(task, iterations);
        let rejection_feedback = extract_rejection_feedback(task, iterations);
        let pending_rejection = extract_pending_rejection(task, iterations);
        let stages_with_logs = build_stages_with_logs(sessions);
        let subtask_progress = compute_subtask_progress(subtask_states);
        let current_stage = match task.current_stage() {
            Some(s) => Some(owned(s)),
            None => None,
        };
        let terminal = task.is_terminal();
        let has_questions = pending_questions.len() > 0;
        DerivedTaskState {
            current_stage,
            is_working: !terminal && task.state.has_active_agent(),
            is_system_active: !terminal && task.state.is_system_active(),
            phase_icon: compute_phase_icon(task),
            is_interrupted: match task.state {
                TaskState::Interrupted { .. } => true,
                _ => false,
            },
            is_failed: task.is_failed(),
            is_blocked: task.is_blocked(),
            is_done: task.is_done(),
            is_archived: task.is_archived(),
            is_terminal: terminal,
            is_waiting_on_children: task.state.is_waiting_on_children(),
            needs_review: task.needs_review(),
            has_questions,
            pending_questions,
            rejection_feedback,
            pending_rejection,
            stages_with_logs,
            subtask_progress,
        }
    }
}

/// Index of the latest iteration of `stage` among `s`.
fn latest_iteration_index(s: &[Iteration], stage: &str) -> (r: Option<usize>)
    ensures
        r matches Some(i) ==> i < s@.len(),
        match latest_index(s@, stage@) {
            Some(i) => r == Some(i as usize),
            None => r is None,
        },
{
    let mut best: Option<usize> = None;
    let mut i: usize = 0;
    while i < s.len()
        invariant
            i <= s.len(),
            match latest_index(s@.take(i as int), stage@) {
                Some(k) => best == Some(k as usize) && k < i,
                None => best is None,
            },
        decreases s.len() - i,
    {
        let ghost t = s@.take(i + 1);
        proof {
            assert(t.drop_last() =~= s@.take(i as int));
            assert(t.last() == s@[i as int]);
            lemma_latest_index(s@.take(i as int), stage@);
        }
        if str_eq(s[i].stage.as_str(), stage) {
            match best {
                Some(b) => {
                    assert(t[b as int] == s@[b as int]);
                    if s[b].iteration_number <= s[i].iteration_number {
                        best = Some(i);
                    }
                },
                None => {
                    best = Some(i);
                },
            }
        }
        i = i + 1;
    }
    assert(s@.take(s.len() as int) =~= s@);
    proof {
        lemma_latest_index(s@, stage@);
    }
    best
}

/// Questions pending in the latest iteration of the current stage.
pub fn extract_pending_questions(task: &Task, iterations: &[Iteration]) -> (r: Vec<Question>)
    ensures
        match pending_questions_of(*task, iterations@) {
            Some(q) => same_questions(r@, q),
            None => r@.len() == 0,
        },
{
    let stage = match task.current_stage() {
        Some(s) => s,
        None => return Vec::new(),
    };
    proof {
        lemma_latest_index(iterations@, stage@);
    }
    match latest_iteration_index(iterations, stage) {
        Some(i) => match &iterations[i].outcome {
            Some(Outcome::AwaitingAnswers { questions, .. }) => clone_questions(questions),
            _ => Vec::new(),
        },
        None => Vec::new(),
    }
}

/// Feedback of the most recent rejection in the current stage.
pub fn extract_rejection_feedback(task: &Task, iterations: &[Iteration]) -> (r: Option<String>)
    ensures
        opt_view(r) == rejection_feedback_of(*task, iterations@),
{
    let stage = match task.current_stage() {
        Some(s) => s,
        None => return None,
    };
    let mut i = iterations.len();
    assert(iterations@.take(i as int) =~= iterations@);
    while i > 0
        invariant
            i <= iterations.len(),
            task.state.spec_stage() == Some(stage@),
            last_feedback_index(iterations@, stage@) == last_feedback_index(iterations@.take(i as int), stage@),
        decreases i,
    {
        let ghost t = iterations@.take(i as int);
        proof {
            assert(t.drop_last() =~= iterations@.take(i - 1));
            assert(t.last() == iterations@[i - 1]);
        }
        let it = &iterations[i - 1];
        if str_eq(it.stage.as_str(), stage) {
            match &it.outcome {
                Some(o) => match o.feedback() {
                    Some(f) => {
                        proof {
                            assert(last_feedback_index(t, stage@) == Some(i - 1));
                        }
                        return Some(owned(f));
                    },
                    None => {},
                },
                None => {},
            }
        }
        i = i - 1;
    }
    assert(iterations@.take(0) =~= Seq::<Iteration>::empty());
    None
}

/// The rejection awaiting confirmation in the latest iteration of the current stage.
pub fn extract_pending_rejection(task: &Task, iterations: &[Iteration]) -> (r: Option<PendingRejection>)
    ensures
        match pending_rejection_of(*task, iterations@) {
            Some((f, t, fb)) => r matches Some(p) && p.from_stage@ == f && p.target@ == t && p.feedback@ == fb,
            None => r is None,
        },
{
    let stage = match task.current_stage() {
        Some(s) => s,
        None => return None,
    };
    proof {
        lemma_latest_index(iterations@, stage@);
    }
    match latest_iteration_index(iterations, stage) {
        Some(i) => match &iterations[i].outcome {
            Some(Outcome::AwaitingRejectionReview { from_stage, target, feedback }) => Some(PendingRejection {
                from_stage: from_stage.clone(),
                target: target.clone(),
                feedback: feedback.clone(),
            }),
            _ => None,
        },
        None => None,
    }
}

/// The phase icon tag of a task.
pub fn compute_phase_icon(task: &Task) -> (r: Option<String>)
    ensures
        opt_view(r) == phase_icon_of(task.state),
{
    if task.is_terminal() {
        return None;
    }
    match &task.state {
        TaskState::Committing { .. } => Some(owned("committing")),
        TaskState::Integrating => Some(owned("integrating")),
        TaskState::SettingUp { .. } => Some(owned("setting_up")),
        TaskState::AwaitingSetup { .. } => Some(owned("awaiting_setup")),
        TaskState::Finishing { .. } | TaskState::Committed { .. } => Some(owned("system_busy")),
        TaskState::Queued { .. } => Some(owned("waiting_for_orchestrator")),
        _ => None,
    }
}

/// Counts subtasks per progress bucket; `None` when there are none.
pub fn compute_subtask_progress(subtask_states: &[DerivedTaskState]) -> (r: Option<SubtaskProgress>)
    ensures
        r == progress_of(subtask_states@),
{
    if subtask_states.len() == 0 {
        return None;
    }
    let mut p = SubtaskProgress {
        total: subtask_states.len(),
        done: 0,
        failed: 0,
        blocked: 0,
        interrupted: 0,
        has_questions: 0,
        needs_review: 0,
        working: 0,
        waiting: 0,
    };
    let mut i: usize = 0;
    while i < subtask_states.len()
        invariant
            i <= subtask_states.len(),
            p.total == subtask_states.len(),
            p.done == bucket_count(subtask_states@.take(i as int), 0),
            p.failed == bucket_count(subtask_states@.take(i as int), 1),
            p.blocked == bucket_count(subtask_states@.take(i as int), 2),
            p.interrupted == bucket_count(subtask_states@.take(i as int), 3),
            p.has_questions == bucket_count(subtask_states@.take(i as int), 4),
            p.needs_review == bucket_count(subtask_states@.take(i as int), 5),
            p.working == bucket_count(subtask_states@.take(i as int), 6),
            p.waiting == bucket_count(subtask_states@.take(i as int), 7),
        decreases subtask_states.len() - i,
    {
        let ghost t = subtask_states@.take(i + 1);
        proof {
            assert(t.drop_last() =~= subtask_states@.take(i as int));
            assert(t.last() == subtask_states@[i as int]);
            lemma_bucket_count_le(subtask_states@.take(i as int));
        }
        let s = &subtask_states[i];
        if s.is_done || s.is_archived {
            p.done = p.done + 1;
        } else if s.is_failed {
            p.failed = p.failed + 1;
        } else if s.is_blocked {
            p.blocked = p.blocked + 1;
        } else if s.is_interrupted {
            p.interrupted = p.interrupted + 1;
        } else if s.has_questions {
            p.has_questions = p.has_questions + 1;
        } else if s.needs_review {
            p.needs_review = p.needs_review + 1;
        } else if s.is_working || s.is_system_active {
            p.working = p.working + 1;
        } else {
            p.waiting = p.waiting + 1;
        }
        i = i + 1;
    }
    assert(subtask_states@.take(subtask_states.len() as int) =~= subtask_states@);
    Some(p)
}

proof fn lemma_bucket_count_le(s: Seq<DerivedTaskState>)
    ensures
        forall|b: nat| #[trigger] bucket_count(s, b) <= s.len(),
    decreases s.len(),
{
    if s.len() > 0 {
        lemma_bucket_count_le(s.drop_last());
        assert forall|b: nat| #[trigger] bucket_count(s, b) <= s.len() by {
            assert(bucket_count(s.drop_last(), b) <= s.len() - 1);
        }
    }
}

// ---------------------------------------------------------------------------
// Stage log groups
// ---------------------------------------------------------------------------

/// Position of the first string in `v` equal to `x`.
fn position_of(v: &Vec<String>, x: &String) -> (r: Option<usize>)
    ensures
        match r {
            Some(k) => k < v@.len() && v@[k as int]@ == x@,
            None => forall|j: int| 0 <= j < v@.len() ==> v@[j]@ != x@,
        },
{
    let mut k: usize = 0;
    while k < v.len()
        invariant
            k <= v.len(),
            forall|j: int| 0 <= j < k ==> v@[j]@ != x@,
        decreases v.len() - k,
    {
        if v[k] == *x {
            return Some(k);
        }
        k = k + 1;
    }
    None
}

/// The distinct stages of `sessions`, in order of first appearance.
fn collect_stages(sessions: &[StageSession]) -> (r: Vec<String>)
    ensures
        r@.map_values(|x: String| x@) == distinct_stages(sessions@),
{
    let mut out: Vec<String> = Vec::new();
    let mut i: usize = 0;
    while i < sessions.len()
        invariant
            i <= sessions.len(),
            out@.map_values(|x: String| x@) == distinct_stages(sessions@.take(i as int)),
        decreases sessions.len() - i,
    {
        let ghost t = sessions@.take(i + 1);
        let ghost d = distinct_stages(sessions@.take(i as int));
        proof {
            assert(t.drop_last() =~= sessions@.take(i as int));
            assert(t.last() == sessions@[i as int]);
        }
        let pos = position_of(&out, &sessions[i].stage);
        let found = pos.is_some();
        proof {
            assert forall|j: int| 0 <= j < out@.len() implies #[trigger] d[j] == out@[j]@ by {}
            if found {
                assert(d[pos.unwrap() as int] == sessions@[i as int].stage@);
                assert(d.contains(sessions@[i as int].stage@));
            } else {
                assert(!d.contains(sessions@[i as int].stage@));
            }
        }
        if !found {
            out.push(sessions[i].stage.clone());
            assert(out@.map_values(|x: String| x@) =~= d.push(sessions@[i as int].stage@));
        }
        i = i + 1;
    }
    assert(sessions@.take(sessions.len() as int) =~= sessions@);
    out
}

/// Copies of the sessions of `stage`, in order.
fn select_stage_sessions(sessions: &[StageSession], stage: &String) -> (r: Vec<StageSession>)
    ensures
        r@ == sessions_of_stage(sessions@, stage@),
{
    let mut out: Vec<StageSession> = Vec::new();
    let mut i: usize = 0;
    while i < sessions.len()
        invariant
            i <= sessions.len(),
            out@ == sessions_of_stage(sessions@.take(i as int), stage@),
        decreases sessions.len() - i,
    {
        let ghost t = sessions@.take(i + 1);
        proof {
            assert(t.drop_last() =~= sessions@.take(i as int));
            assert(t.last() == sessions@[i as int]);
        }
        if sessions[i].stage == *stage {
            out.push(sessions[i].duplicate());
        }
        i = i + 1;
    }
    assert(sessions@.take(sessions.len() as int) =~= sessions@);
    out
}

/// Stable sort of sessions by creation time.
fn sort_sessions_by_created(v: Vec<StageSession>) -> (r: Vec<StageSession>)
    ensures
        r@ == stable_sort(v@, created_key()),
{
    let mut out: Vec<StageSession> = Vec::new();
    let mut i: usize = 0;
    while i < v.len()
        invariant
            i <= v.len(),
            out@ == stable_sort(v@.take(i as int), created_key()),
        decreases v.len() - i,
    {
        let ghost t = v@.take(i + 1);
        proof {
            assert(t.drop_last() =~= v@.take(i as int));
            assert(t.last() == v@[i as int]);
        }
        let x = v[i].duplicate();
        let mut pos = out.len();
        while pos > 0 && str_lt(x.created_at.as_str(), out[pos - 1].created_at.as_str())
            invariant
                pos <= out.len(),
                forall|j: int| pos <= j < out.len() ==> text_lt(x.created_at@, #[trigger] out@[j].created_at@),
            decreases pos,
        {
            pos = pos - 1;
        }
        proof {
            let key = created_key();
            assert forall|j: int| pos <= j < out@.len() implies text_lt(key(x), key(#[trigger] out@[j])) by {
                assert(text_lt(x.created_at@, out@[j].created_at@));
            }
            if pos > 0 {
                crate::text::lemma_text_lt_total(out@[pos - 1].created_at@, x.created_at@);
                assert(text_le(key(out@[pos - 1]), key(x)));
            }
            lemma_insert_sorted_at(out@, x, key, pos as int);
        }
        out.insert(pos, x);
        i = i + 1;
    }
    assert(v@.take(v.len() as int) =~= v@);
    out
}

/// Log infos of sessions sorted oldest first.
fn session_infos(sorted: &Vec<StageSession>) -> (r: Vec<SessionLogInfo>)
    ensures
        r@ == Seq::new(sorted@.len(), |i: int| session_info(sorted@, i)),
{
    let mut out: Vec<SessionLogInfo> = Vec::new();
    let mut i: usize = 0;
    while i < sorted.len()
        invariant
            i <= sorted.len(),
            out@ == Seq::new(i as nat, |k: int| session_info(sorted@, k)),
        decreases sorted.len() - i,
    {
        let s = &sorted[i];
        let run: u32 = (i as u64 + 1) as u32;
        out.push(SessionLogInfo {
            session_id: s.id.clone(),
            run_number: run,
            is_current: s.session_state != SessionState::Superseded,
            created_at: s.created_at.clone(),
        });
        assert(out@ =~= Seq::new((i + 1) as nat, |k: int| session_info(sorted@, k)));
        i = i + 1;
    }
    out
}

/// Creation time of the oldest session of a group ("" when it has none).
fn group_first_created(g: &StageLogInfo) -> (r: &str)
    ensures
        r@ == group_key()(log_view(*g)),
{
    if g.sessions.len() > 0 {
        g.sessions[0].created_at.as_str()
    } else {
        proof {
            reveal_strlit("");
        }
        ""
    }
}

/// Stable sort of groups by their oldest session.
fn sort_groups(v: Vec<StageLogInfo>) -> (r: Vec<StageLogInfo>)
    ensures
        r@.map_values(|g: StageLogInfo| log_view(g)) == stable_sort(v@.map_values(|g: StageLogInfo| log_view(g)), group_key()),
{
    let ghost all = v@;
    let ghost views = v@.map_values(|g: StageLogInfo| log_view(g));
    let n = v.len();
    let mut rest = v;
    let mut out: Vec<StageLogInfo> = Vec::new();
    let mut i: usize = 0;
    while i < n
        invariant
            i <= n,
            n == all.len(),
            rest@ == all.skip(i as int),
            views == all.map_values(|g: StageLogInfo| log_view(g)),
            out@.map_values(|g: StageLogInfo| log_view(g)) == stable_sort(views.take(i as int), group_key()),
        decreases n - i,
    {
        let x = rest.remove(0);
        assert(x == all[i as int]);
        assert(rest@ =~= all.skip(i + 1));
        let ghost t = views.take(i + 1);
        let ghost ov = out@.map_values(|g: StageLogInfo| log_view(g));
        proof {
            assert(t.drop_last() =~= views.take(i as int));
            assert(t.last() == log_view(x));
        }
        let xk = group_first_created(&x);
        let mut pos = out.len();
        while pos > 0 && str_lt(xk, group_first_created(&out[pos - 1]))
            invariant
                pos <= out.len(),
                ov == out@.map_values(|g: StageLogInfo| log_view(g)),
                xk@ == group_key()(log_view(x)),
                forall|j: int| pos <= j < out.len() ==> text_lt(xk@, group_key()(#[trigger] ov[j])),
            decreases pos,
        {
            pos = pos - 1;
        }
        proof {
            let key = group_key();
            if pos > 0 {
                crate::text::lemma_text_lt_total(key(ov[pos - 1]), xk@);
            }
            lemma_insert_sorted_at(ov, log_view(x), key, pos as int);
        }
        out.insert(pos, x);
        assert(out@.map_values(|g: StageLogInfo| log_view(g)) =~= ov.insert(pos as int, log_view(x)));
        i = i + 1;
    }
    assert(views.take(n as int) =~= views);
    out
}

/// Sessions grouped by stage for log display.
pub fn build_stages_with_logs(sessions: &[StageSession]) -> (r: Vec<StageLogInfo>)
    ensures
        r@.map_values(|g: StageLogInfo| log_view(g)) == stage_logs_of(sessions@),
{
    let stages = collect_stages(sessions);
    let ghost d = distinct_stages(sessions@);
    let mut groups: Vec<StageLogInfo> = Vec::new();
    let mut k: usize = 0;
    while k < stages.len()
        invariant
            k <= stages.len(),
            stages@.map_values(|x: String| x@) == d,
            d == distinct_stages(sessions@),
            groups@.len() == k,
            groups@.map_values(|g: StageLogInfo| log_view(g)) == Seq::new(k as nat, |j: int| group_of(sessions@, d[j])),
        decreases stages.len() - k,
    {
        let selected = select_stage_sessions(sessions, &stages[k]);
        let sorted = sort_sessions_by_created(selected);
        let infos = session_infos(&sorted);
        assert(stages@[k as int]@ == d[k as int]);
        assert(infos@ =~= group_of(sessions@, d[k as int]).1);
        let ghost before = groups@.map_values(|g: StageLogInfo| log_view(g));
        groups.push(StageLogInfo { stage: stages[k].clone(), sessions: infos });
        assert(log_view(groups@[k as int]) == group_of(sessions@, d[k as int]));
        assert forall|j: int| 0 <= j < k implies log_view(#[trigger] groups@[j]) == group_of(sessions@, d[j]) by {
            assert(before[j] == group_of(sessions@, d[j]));
        }
        assert(groups@.map_values(|g: StageLogInfo| log_view(g)) =~= Seq::new((k + 1) as nat, |j: int| group_of(sessions@, d[j])));
        k = k + 1;
    }
    assert(Seq::new(d.len(), |j: int| group_of(sessions@, d[j])) =~= Seq::new(stages.len() as nat, |j: int| group_of(sessions@, d[j])));
    sort_groups(groups)
}

/// Every subtask falls in exactly one progress bucket: the bucket counts add
/// up to the number of subtasks.
pub proof fn law_progress_buckets_partition(s: Seq<DerivedTaskState>)
    ensures
        bucket_count(s, 0) + bucket_count(s, 1) + bucket_count(s, 2) + bucket_count(s, 3) + bucket_count(s, 4)
            + bucket_count(s, 5) + bucket_count(s, 6) + bucket_count(s, 7) == s.len(),
    decreases s.len(),
{
    if s.len() > 0 {
        law_progress_buckets_partition(s.drop_last());
    }
}

} // verus!
