//! Derived task state: flags, phase icons, questions, rejections, logs and
//! subtask progress.

use orkestra_core::workflow::domain::iteration::Iteration;
use orkestra_core::workflow::domain::question::Question;
use orkestra_core::workflow::domain::stage_session::{SessionState, StageSession};
use orkestra_core::workflow::domain::task::Task;
use orkestra_core::workflow::domain::task_view::DerivedTaskState;
use orkestra_core::workflow::runtime::{Outcome, TaskState};

fn make_task(stage: &str) -> Task {
    Task::new(
        "task-1",
        "Test",
        "Description",
        stage,
        "2025-01-24T10:00:00Z",
    )
}

#[test]
fn test_derived_state_active_task() {
    let task = make_task("planning");
    let derived = DerivedTaskState::build(&task, &[], &[], &[]);

    assert_eq!(derived.current_stage, Some("planning".to_string()));
    assert!(!derived.is_working);
    assert!(!derived.is_failed);
    assert!(!derived.is_blocked);
    assert!(!derived.is_done);
    assert!(!derived.is_terminal);
    assert!(!derived.needs_review);
    assert!(!derived.has_questions);
    assert!(derived.pending_questions.is_empty());
    assert!(derived.rejection_feedback.is_none());
    assert!(derived.stages_with_logs.is_empty());
}

#[test]
fn test_derived_state_working() {
    let mut task = make_task("planning");
    task.state = TaskState::agent_working("planning");
    let derived = DerivedTaskState::build(&task, &[], &[], &[]);

    assert!(derived.is_working);
    assert!(!derived.needs_review);
}

#[test]
fn test_derived_state_needs_review() {
    let mut task = make_task("planning");
    task.state = TaskState::awaiting_approval("planning");
    let derived = DerivedTaskState::build(&task, &[], &[], &[]);

    assert!(derived.needs_review);
    assert!(!derived.is_working);
}

#[test]
fn test_derived_state_done_not_needs_review() {
    let mut task = make_task("planning");
    task.state = TaskState::Done;
    let derived = DerivedTaskState::build(&task, &[], &[], &[]);

    // Done tasks should not count as needs_review
    assert!(!derived.needs_review);
}

#[test]
fn test_derived_state_terminal_states() {
    let mut task = make_task("planning");

    task.state = TaskState::Done;
    let derived = DerivedTaskState::build(&task, &[], &[], &[]);
    assert!(derived.is_done);
    assert!(derived.is_terminal);
    assert!(derived.current_stage.is_none());

    task.state = TaskState::failed("error");
    let derived = DerivedTaskState::build(&task, &[], &[], &[]);
    assert!(derived.is_failed);
    assert!(derived.is_terminal);

    task.state = TaskState::blocked("reason");
    let derived = DerivedTaskState::build(&task, &[], &[], &[]);
    assert!(derived.is_blocked);
    assert!(derived.is_terminal);
}

#[test]
fn test_derived_state_with_questions() {
    let task = make_task("planning");
    let mut iter = Iteration::new("iter-1", "task-1", "planning", 1, "now");
    iter.outcome = Some(Outcome::awaiting_answers(
        "planning",
        vec![Question::new("q-1", "What framework?")],
    ));
    iter.ended_at = Some("now".to_string());

    let derived = DerivedTaskState::build(&task, &[iter], &[], &[]);

    assert!(derived.has_questions);
    assert_eq!(derived.pending_questions.len(), 1);
    assert_eq!(derived.pending_questions[0].question, "What framework?");
}

#[test]
fn test_derived_state_with_rejection_feedback() {
    let task = make_task("planning");
    let mut iter = Iteration::new("iter-1", "task-1", "planning", 1, "now");
    iter.outcome = Some(Outcome::rejected("planning", "Needs more detail"));
    iter.ended_at = Some("now".to_string());

    let derived = DerivedTaskState::build(&task, &[iter], &[], &[]);

    assert_eq!(
        derived.rejection_feedback,
        Some("Needs more detail".to_string())
    );
}

#[test]
fn test_derived_state_stages_with_logs() {
    let task = make_task("planning");

    let mut session1 =
        StageSession::new("ss-1", "task-1", "planning", "2025-01-24T10:00:00Z");
    session1.session_state = SessionState::Active;

    let mut session2 = StageSession::new("ss-2", "task-1", "work", "2025-01-24T11:00:00Z");
    session2.session_state = SessionState::Spawning;

    let derived = DerivedTaskState::build(&task, &[], &[session1, session2], &[]);

    // All sessions produce tabs, including Spawning
    assert_eq!(derived.stages_with_logs.len(), 2);
    assert_eq!(derived.stages_with_logs[0].stage, "planning");
    assert_eq!(derived.stages_with_logs[0].sessions.len(), 1);
    assert_eq!(derived.stages_with_logs[0].sessions[0].run_number, 1);
    assert!(derived.stages_with_logs[0].sessions[0].is_current);
    assert_eq!(derived.stages_with_logs[1].stage, "work");
}

#[test]
fn test_derived_state_multiple_sessions_per_stage() {
    let task = make_task("work");

    // First review session - superseded
    let mut session1 =
        StageSession::new("ss-1", "task-1", "review", "2025-01-24T10:00:00Z");
    session1.session_state = SessionState::Superseded;

    // Second review session - current
    let mut session2 =
        StageSession::new("ss-2", "task-1", "review", "2025-01-24T11:00:00Z");
    session2.session_state = SessionState::Active;

    // Work session
    let mut session3 = StageSession::new("ss-3", "task-1", "work", "2025-01-24T09:00:00Z");
    session3.session_state = SessionState::Completed;

    let derived = DerivedTaskState::build(&task, &[], &[session1, session2, session3], &[]);

    // Should have 2 stages: work (first by created_at), then review
    assert_eq!(derived.stages_with_logs.len(), 2);

    // Work stage comes first (09:00)
    assert_eq!(derived.stages_with_logs[0].stage, "work");
    assert_eq!(derived.stages_with_logs[0].sessions.len(), 1);

    // Review stage has 2 sessions
    assert_eq!(derived.stages_with_logs[1].stage, "review");
    assert_eq!(derived.stages_with_logs[1].sessions.len(), 2);

    // Sessions are ordered chronologically with correct run numbers
    assert_eq!(derived.stages_with_logs[1].sessions[0].run_number, 1);
    assert_eq!(derived.stages_with_logs[1].sessions[0].session_id, "ss-1");
    assert!(!derived.stages_with_logs[1].sessions[0].is_current); // superseded

    assert_eq!(derived.stages_with_logs[1].sessions[1].run_number, 2);
    assert_eq!(derived.stages_with_logs[1].sessions[1].session_id, "ss-2");
    assert!(derived.stages_with_logs[1].sessions[1].is_current); // active
}

#[test]
fn test_derived_state_questions_only_from_current_stage() {
    let task = make_task("work");

    // Questions from a different stage should be ignored
    let mut iter = Iteration::new("iter-1", "task-1", "planning", 1, "now");
    iter.outcome = Some(Outcome::awaiting_answers(
        "planning",
        vec![Question::new("q-1", "Old question?")],
    ));
    iter.ended_at = Some("now".to_string());

    let derived = DerivedTaskState::build(&task, &[iter], &[], &[]);

    assert!(!derived.has_questions);
    assert!(derived.pending_questions.is_empty());
}

#[test]
fn test_derived_state_no_subtasks() {
    let task = make_task("planning");
    let derived = DerivedTaskState::build(&task, &[], &[], &[]);

    assert!(derived.subtask_progress.is_none());
    assert!(!derived.is_waiting_on_children);
}

#[test]
fn test_derived_state_with_subtask_progress() {
    let mut parent = make_task("breakdown");
    parent.state = TaskState::waiting_on_children("work");

    // Build derived states for subtasks
    let mut sub1 = Task::new("sub-1", "Sub 1", "Desc", "work", "now");
    sub1.state = TaskState::Done;
    let sub1_derived = DerivedTaskState::build(&sub1, &[], &[], &[]);

    let sub2 = Task::new("sub-2", "Sub 2", "Desc", "work", "now");
    let sub2_derived = DerivedTaskState::build(&sub2, &[], &[], &[]);

    let mut sub3 = Task::new("sub-3", "Sub 3", "Desc", "work", "now");
    sub3.state = TaskState::failed("error");
    let sub3_derived = DerivedTaskState::build(&sub3, &[], &[], &[]);

    let derived = DerivedTaskState::build(
        &parent,
        &[],
        &[],
        &[sub1_derived, sub2_derived, sub3_derived],
    );

    assert!(derived.is_waiting_on_children);
    let progress = derived.subtask_progress.unwrap();
    assert_eq!(progress.total, 3);
    assert_eq!(progress.done, 1);
    assert_eq!(progress.failed, 1);
    assert_eq!(progress.waiting, 1);
    assert_eq!(progress.has_questions, 0);
    assert_eq!(progress.needs_review, 0);
    assert_eq!(progress.working, 0);
    assert_eq!(progress.blocked, 0);
}

#[test]
fn test_subtask_progress_aggregate_flags() {
    let mut parent = make_task("breakdown");
    parent.state = TaskState::waiting_on_children("work");

    // Subtask with questions
    let sub_q = Task::new("sub-q", "Q", "Desc", "work", "now");
    let mut iter_q = Iteration::new("iter-q", "sub-q", "work", 1, "now");
    iter_q.outcome = Some(Outcome::awaiting_answers(
        "work",
        vec![Question::new("q-1", "How?")],
    ));
    iter_q.ended_at = Some("now".to_string());
    let derived_questions = DerivedTaskState::build(&sub_q, &[iter_q], &[], &[]);

    // Subtask awaiting review
    let mut sub_r = Task::new("sub-r", "R", "Desc", "work", "now");
    sub_r.state = TaskState::awaiting_approval("work");
    let derived_review = DerivedTaskState::build(&sub_r, &[], &[], &[]);

    // Subtask working
    let mut sub_w = Task::new("sub-w", "W", "Desc", "work", "now");
    sub_w.state = TaskState::agent_working("work");
    let derived_working = DerivedTaskState::build(&sub_w, &[], &[], &[]);

    let derived = DerivedTaskState::build(
        &parent,
        &[],
        &[],
        &[derived_questions, derived_review, derived_working],
    );

    let progress = derived.subtask_progress.unwrap();
    assert_eq!(progress.has_questions, 1);
    assert_eq!(progress.needs_review, 1);
    assert_eq!(progress.working, 1);
}

#[test]
fn test_subtask_progress_includes_archived() {
    let mut parent = make_task("breakdown");
    parent.state = TaskState::waiting_on_children("work");

    // Done subtask
    let mut sub1 = Task::new("sub-1", "Sub 1", "Desc", "work", "now");
    sub1.state = TaskState::Done;
    let sub1_derived = DerivedTaskState::build(&sub1, &[], &[], &[]);

    // Archived subtask (completed and integrated)
    let mut sub2 = Task::new("sub-2", "Sub 2", "Desc", "work", "now");
    sub2.state = TaskState::Archived;
    let sub2_derived = DerivedTaskState::build(&sub2, &[], &[], &[]);

    // Active subtask
    let sub3 = Task::new("sub-3", "Sub 3", "Desc", "work", "now");
    let sub3_derived = DerivedTaskState::build(&sub3, &[], &[], &[]);

    let derived = DerivedTaskState::build(
        &parent,
        &[],
        &[],
        &[sub1_derived, sub2_derived, sub3_derived],
    );

    assert!(derived.is_waiting_on_children);
    let progress = derived.subtask_progress.unwrap();
    assert_eq!(progress.total, 3);
    assert_eq!(
        progress.done, 2,
        "Both Done and Archived should count as done"
    );
    assert_eq!(progress.waiting, 1);
}

#[test]
fn test_derived_state_archived() {
    let mut task = make_task("work");
    task.state = TaskState::Archived;
    let derived = DerivedTaskState::build(&task, &[], &[], &[]);

    assert!(derived.is_archived);
    assert!(derived.is_terminal);
    assert!(!derived.is_done);
    assert!(!derived.is_failed);
    assert!(!derived.is_blocked);
}

#[test]
fn test_derived_state_pending_rejection() {
    let mut task = make_task("review");
    task.state = TaskState::awaiting_rejection_confirmation("review");

    let mut iter = Iteration::new("iter-1", "task-1", "review", 1, "now");
    iter.outcome = Some(Outcome::awaiting_rejection_review(
        "review",
        "work",
        "Tests are failing",
    ));
    iter.ended_at = Some("now".to_string());

    let derived = DerivedTaskState::build(&task, &[iter], &[], &[]);

    assert!(derived.needs_review);
    let rejection = derived.pending_rejection.unwrap();
    assert_eq!(rejection.from_stage, "review");
    assert_eq!(rejection.target, "work");
    assert_eq!(rejection.feedback, "Tests are failing");
}

#[test]
fn test_derived_state_no_pending_rejection_for_standard_review() {
    let mut task = make_task("review");
    task.state = TaskState::awaiting_approval("review");

    // Standard approval — no pending rejection
    let iter = Iteration::new("iter-1", "task-1", "review", 1, "now");
    let derived = DerivedTaskState::build(&task, &[iter], &[], &[]);

    assert!(derived.pending_rejection.is_none());
}

#[test]
fn test_derived_state_interrupted() {
    let mut task = make_task("work");
    task.state = TaskState::interrupted("work");
    let derived = DerivedTaskState::build(&task, &[], &[], &[]);

    assert!(derived.is_interrupted);
    assert!(!derived.is_working);
    assert!(!derived.is_failed);
    assert!(!derived.is_blocked);
    assert!(!derived.is_done);
    assert!(!derived.needs_review);
}

#[test]
fn test_subtask_progress_interrupted() {
    let mut parent = make_task("breakdown");
    parent.state = TaskState::waiting_on_children("work");

    // One interrupted subtask
    let mut sub1 = Task::new("sub-1", "Sub 1", "Desc", "work", "now");
    sub1.state = TaskState::interrupted("work");
    let sub1_derived = DerivedTaskState::build(&sub1, &[], &[], &[]);

    // One working subtask
    let mut sub2 = Task::new("sub-2", "Sub 2", "Desc", "work", "now");
    sub2.state = TaskState::agent_working("work");
    let sub2_derived = DerivedTaskState::build(&sub2, &[], &[], &[]);

    // One blocked subtask
    let mut sub3 = Task::new("sub-3", "Sub 3", "Desc", "work", "now");
    sub3.state = TaskState::blocked("waiting");
    let sub3_derived = DerivedTaskState::build(&sub3, &[], &[], &[]);

    let derived = DerivedTaskState::build(
        &parent,
        &[],
        &[],
        &[sub1_derived, sub2_derived, sub3_derived],
    );

    let progress = derived.subtask_progress.unwrap();
    assert_eq!(progress.total, 3);
    assert_eq!(progress.interrupted, 1);
    assert_eq!(progress.working, 1);
    assert_eq!(progress.blocked, 1);
    assert_eq!(progress.done, 0);
    assert_eq!(progress.failed, 0);
    assert_eq!(progress.has_questions, 0);
    assert_eq!(progress.needs_review, 0);
    assert_eq!(progress.waiting, 0);
}

#[test]
fn test_derived_state_system_active_committing() {
    let mut task = make_task("work");
    task.state = TaskState::committing("work");
    let derived = DerivedTaskState::build(&task, &[], &[], &[]);

    assert!(derived.is_system_active);
    assert!(!derived.is_working);
    assert!(!derived.is_terminal);
}

#[test]
fn test_derived_state_system_active_integrating() {
    let mut task = make_task("work");
    task.state = TaskState::Integrating;
    let derived = DerivedTaskState::build(&task, &[], &[], &[]);

    assert!(derived.is_system_active);
    assert!(!derived.is_working);
    assert!(!derived.is_terminal);
}

#[test]
fn test_derived_state_system_active_finishing() {
    let mut task = make_task("work");
    task.state = TaskState::finishing("work");
    let derived = DerivedTaskState::build(&task, &[], &[], &[]);

    assert!(derived.is_system_active);
    assert!(!derived.is_working);
    assert!(!derived.is_terminal);
}

#[test]
fn test_derived_state_not_system_active_for_other_states() {
    let mut task = make_task("work");

    task.state = TaskState::queued("work");
    let derived = DerivedTaskState::build(&task, &[], &[], &[]);
    assert!(!derived.is_system_active);

    task.state = TaskState::agent_working("work");
    let derived = DerivedTaskState::build(&task, &[], &[], &[]);
    assert!(!derived.is_system_active);

    task.state = TaskState::awaiting_approval("work");
    let derived = DerivedTaskState::build(&task, &[], &[], &[]);
    assert!(!derived.is_system_active);

    task.state = TaskState::interrupted("work");
    let derived = DerivedTaskState::build(&task, &[], &[], &[]);
    assert!(!derived.is_system_active);

    task.state = TaskState::awaiting_setup("work");
    let derived = DerivedTaskState::build(&task, &[], &[], &[]);
    assert!(!derived.is_system_active);

    task.state = TaskState::setting_up("work");
    let derived = DerivedTaskState::build(&task, &[], &[], &[]);
    assert!(!derived.is_system_active);
}

#[test]
fn test_derived_state_system_active_terminal_guard() {
    let mut task = make_task("work");
    // In the unified model, a task is either Committing or Failed, not both.
    // This test verifies that a Failed task is not marked as system_active.
    task.state = TaskState::failed("test error");

    let derived = DerivedTaskState::build(&task, &[], &[], &[]);

    assert!(!derived.is_system_active);
    assert!(derived.is_terminal);
    assert!(derived.is_failed);
}

#[test]
fn test_subtask_progress_system_active() {
    let mut parent = make_task("breakdown");
    parent.state = TaskState::waiting_on_children("work");

    // One system-active subtask (committing)
    let mut sub1 = Task::new("sub-1", "Sub 1", "Desc", "work", "now");
    sub1.state = TaskState::committing("work");
    let sub1_derived = DerivedTaskState::build(&sub1, &[], &[], &[]);

    // One working subtask
    let mut sub2 = Task::new("sub-2", "Sub 2", "Desc", "work", "now");
    sub2.state = TaskState::agent_working("work");
    let sub2_derived = DerivedTaskState::build(&sub2, &[], &[], &[]);

    // One waiting subtask
    let sub3 = Task::new("sub-3", "Sub 3", "Desc", "work", "now");
    let sub3_derived = DerivedTaskState::build(&sub3, &[], &[], &[]);

    let derived = DerivedTaskState::build(
        &parent,
        &[],
        &[],
        &[sub1_derived, sub2_derived, sub3_derived],
    );

    let progress = derived.subtask_progress.unwrap();
    assert_eq!(progress.total, 3);
    assert_eq!(progress.working, 2); // Both system-active and agent-working count as working
    assert_eq!(progress.waiting, 1);
    assert_eq!(progress.done, 0);
    assert_eq!(progress.failed, 0);
}

#[test]
fn test_subtask_progress_failed_system_active() {
    let mut parent = make_task("breakdown");
    parent.state = TaskState::waiting_on_children("work");

    // One failed subtask (in unified model, Failed is a single state)
    let mut sub1 = Task::new("sub-1", "Sub 1", "Desc", "work", "now");
    sub1.state = TaskState::failed("crash during commit");
    let sub1_derived = DerivedTaskState::build(&sub1, &[], &[], &[]);

    // One normal working subtask
    let mut sub2 = Task::new("sub-2", "Sub 2", "Desc", "work", "now");
    sub2.state = TaskState::agent_working("work");
    let sub2_derived = DerivedTaskState::build(&sub2, &[], &[], &[]);

    let derived = DerivedTaskState::build(&parent, &[], &[], &[sub1_derived, sub2_derived]);

    let progress = derived.subtask_progress.unwrap();
    assert_eq!(progress.total, 2);
    assert_eq!(progress.failed, 1); // Failed check comes first
    assert_eq!(progress.working, 1);
    assert_eq!(progress.waiting, 0);
}

#[test]
fn test_phase_icon_committing() {
    let mut task = make_task("work");
    task.state = TaskState::committing("work");
    let derived = DerivedTaskState::build(&task, &[], &[], &[]);

    assert_eq!(derived.phase_icon, Some("committing".to_string()));
}

#[test]
fn test_phase_icon_integrating() {
    let mut task = make_task("work");
    task.state = TaskState::Integrating;
    let derived = DerivedTaskState::build(&task, &[], &[], &[]);

    assert_eq!(derived.phase_icon, Some("integrating".to_string()));
}

#[test]
fn test_phase_icon_finishing() {
    let mut task = make_task("work");
    task.state = TaskState::finishing("work");
    let derived = DerivedTaskState::build(&task, &[], &[], &[]);

    assert_eq!(derived.phase_icon, Some("system_busy".to_string()));
}

#[test]
fn test_phase_icon_setting_up() {
    let mut task = make_task("work");
    task.state = TaskState::setting_up("work");
    let derived = DerivedTaskState::build(&task, &[], &[], &[]);

    assert_eq!(derived.phase_icon, Some("setting_up".to_string()));
}

#[test]
fn test_phase_icon_awaiting_setup() {
    let mut task = make_task("work");
    task.state = TaskState::awaiting_setup("work");
    let derived = DerivedTaskState::build(&task, &[], &[], &[]);

    assert_eq!(derived.phase_icon, Some("awaiting_setup".to_string()));
}

#[test]
fn test_phase_icon_idle_waiting() {
    let task = make_task("work");
    // Task is idle with an active status
    let derived = DerivedTaskState::build(&task, &[], &[], &[]);

    assert_eq!(
        derived.phase_icon,
        Some("waiting_for_orchestrator".to_string())
    );
}

#[test]
fn test_phase_icon_waiting_on_children() {
    let mut task = make_task("work");
    task.state = TaskState::waiting_on_children("work");
    let derived = DerivedTaskState::build(&task, &[], &[], &[]);

    // WaitingOnChildren shows no phase icon
    assert_eq!(derived.phase_icon, None);
}

#[test]
fn test_phase_icon_awaiting_question_answer() {
    let mut task = make_task("work");
    task.state = TaskState::awaiting_question_answer("work");
    let derived = DerivedTaskState::build(&task, &[], &[], &[]);

    // Human-facing states show no phase icon
    assert_eq!(derived.phase_icon, None);
}

#[test]
fn test_phase_icon_terminal() {
    let mut task = make_task("work");
    task.state = TaskState::failed("err");
    let derived = DerivedTaskState::build(&task, &[], &[], &[]);

    // Terminal tasks don't show phase icons
    assert_eq!(derived.phase_icon, None);
}

#[test]
fn test_phase_icon_agent_working() {
    let mut task = make_task("work");
    task.state = TaskState::agent_working("work");
    let derived = DerivedTaskState::build(&task, &[], &[], &[]);

    assert_eq!(derived.phase_icon, None);
}

#[test]
fn test_phase_icon_awaiting_review() {
    let mut task = make_task("work");
    task.state = TaskState::awaiting_approval("work");
    let derived = DerivedTaskState::build(&task, &[], &[], &[]);

    assert_eq!(derived.phase_icon, None);
}

#[test]
fn test_is_working_terminal_guard() {
    let mut task = make_task("work");
    // In the unified model, a task is either AgentWorking or Failed, not both.
    // This test verifies that a Failed task is not marked as working.
    task.state = TaskState::failed("err");
    let derived = DerivedTaskState::build(&task, &[], &[], &[]);

    assert!(!derived.is_working);
    assert!(derived.is_terminal);
    assert!(derived.is_failed);
}
