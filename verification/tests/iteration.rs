//! Iterations: creation, links, endings and triggers.

use orkestra_core::workflow::domain::iteration::{Iteration, IterationTrigger};
use orkestra_core::workflow::runtime::Outcome;

#[test]
fn test_iteration_new() {
    let iter = Iteration::new("iter-1", "task-1", "planning", 1, "2025-01-24T10:00:00Z");
    assert_eq!(iter.id, "iter-1");
    assert_eq!(iter.task_id, "task-1");
    assert_eq!(iter.stage, "planning");
    assert_eq!(iter.iteration_number, 1);
    assert!(iter.is_active());
    assert!(!iter.is_awaiting_review());
}

#[test]
fn test_iteration_with_stage_session() {
    let iter = Iteration::new("iter-1", "task-1", "work", 1, "now")
        .with_stage_session_id("stage-session-abc");
    assert_eq!(iter.stage_session_id, Some("stage-session-abc".into()));
}

#[test]
fn test_iteration_end() {
    let mut iter = Iteration::new("iter-1", "task-1", "planning", 1, "2025-01-24T10:00:00Z");
    assert!(iter.is_active());

    iter.end("2025-01-24T10:30:00Z", Outcome::Approved);
    assert!(!iter.is_active());
    assert!(matches!(iter.outcome(), Some(Outcome::Approved)));
}

#[test]
fn test_iteration_rejection() {
    let mut iter = Iteration::new("iter-1", "task-1", "work", 1, "now");
    iter.end("later", Outcome::rejected("work", "Tests are failing"));

    assert!(!iter.is_active());
    let outcome = iter.outcome().unwrap();
    assert_eq!(outcome.feedback(), Some("Tests are failing"));
}

#[test]
fn test_iteration_with_context() {
    let iter = Iteration::new("iter-1", "task-1", "work", 2, "now").with_context(
        IterationTrigger::Feedback {
            feedback: "Add error handling".to_string(),
        },
    );

    assert!(iter.incoming_context.is_some());
    match &iter.incoming_context {
        Some(IterationTrigger::Feedback { feedback }) => {
            assert_eq!(feedback, "Add error handling");
        }
        _ => panic!("Expected Feedback trigger"),
    }
}

#[test]
fn test_iteration_with_script_failure_context() {
    let iter = Iteration::new("iter-1", "task-1", "work", 2, "now").with_context(
        IterationTrigger::ScriptFailure {
            from_stage: "lint".to_string(),
            error: "eslint found 5 errors".to_string(),
        },
    );

    assert!(iter.incoming_context.is_some());
    match &iter.incoming_context {
        Some(IterationTrigger::ScriptFailure { from_stage, error }) => {
            assert_eq!(from_stage, "lint");
            assert!(error.contains("eslint"));
        }
        _ => panic!("Expected ScriptFailure trigger"),
    }
}
