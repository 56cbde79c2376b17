//! Stage sessions: agent spawns, resumes and the session lifecycle.

use orkestra_core::workflow::domain::stage_session::{SessionState, StageSession};

#[test]
fn test_stage_session_new() {
    let session = StageSession::new("ss-1", "task-1", "planning", "2025-01-24T10:00:00Z");

    assert_eq!(session.id, "ss-1");
    assert_eq!(session.task_id, "task-1");
    assert_eq!(session.stage, "planning");
    assert!(session.claude_session_id.is_none());
    assert!(session.agent_pid.is_none());
    assert_eq!(session.resume_count, 0);
    assert!(session.is_active());
    assert!(!session.can_resume());
}

#[test]
fn test_agent_spawned_first_time() {
    let mut session = StageSession::new("ss-1", "task-1", "planning", "now");

    session.agent_spawned(12345, Some("agent-session-abc".into()), "later");

    assert_eq!(session.agent_pid, Some(12345));
    assert_eq!(session.claude_session_id, Some("agent-session-abc".into()));
    assert_eq!(session.resume_count, 0); // First spawn, not a resume
    assert!(session.has_agent());
    assert!(session.can_resume());
}

#[test]
fn test_agent_spawned_resume() {
    let mut session = StageSession::new("ss-1", "task-1", "planning", "now");

    // First spawn
    session.agent_spawned(12345, Some("agent-session-abc".into()), "t1");
    session.agent_finished("t2");

    // Resume spawn
    session.agent_spawned(12346, Some("agent-session-xyz".into()), "t3");

    assert_eq!(session.agent_pid, Some(12346));
    // Should keep the first session_id
    assert_eq!(session.claude_session_id, Some("agent-session-abc".into()));
    assert_eq!(session.resume_count, 1); // Incremented on resume
}

#[test]
fn test_session_complete() {
    let mut session = StageSession::new("ss-1", "task-1", "planning", "now");
    session.agent_spawned(12345, Some("abc".into()), "t1");

    session.complete("t2");

    assert_eq!(session.session_state, SessionState::Completed);
    assert!(session.agent_pid.is_none());
    assert!(!session.is_active());
    assert!(!session.can_resume()); // Can't resume completed session
}

#[test]
fn test_session_abandon() {
    let mut session = StageSession::new("ss-1", "task-1", "planning", "now");

    session.abandon("later");

    assert_eq!(session.session_state, SessionState::Abandoned);
    assert!(!session.is_active());
}

#[test]
fn test_spawning_state_not_resumable() {
    let mut session = StageSession::new("ss-1", "task-1", "planning", "now");
    session.session_state = SessionState::Spawning;

    // Spawning sessions should not be resumable
    assert!(!session.can_resume());
    assert!(!session.is_active());
}
