//! Laws of the in-memory store, the state encodings and the mock spawner,
//! checked on concrete values.

use orkestra_core::testutil::mock_spawner::{MockProcessSpawner, SpawnConfig};
use orkestra_core::workflow::adapters::memory::InMemoryWorkflowStore;
use orkestra_core::workflow::domain::stage_session::{
    parse_session_state, session_state_to_str, SessionState, StageSession,
};
use orkestra_core::workflow::domain::task::Task;
use orkestra_core::workflow::runtime::{parse_phase, phase_to_str, Artifact, ArtifactStore, Phase, TaskState};

#[test]
fn saved_task_reads_back_and_replaces_older_copy() {
    let mut store = InMemoryWorkflowStore::new();
    store.save_task(&Task::new("t1", "First", "d", "work", "now")).unwrap();
    store.save_task(&Task::new("t1", "Second", "d", "work", "now")).unwrap();
    store.save_task(&Task::new("t2", "Other", "d", "work", "now")).unwrap();
    assert_eq!(store.get_task("t1").unwrap().unwrap().title, "Second");
    let ids: Vec<String> = store.list_tasks().unwrap().into_iter().map(|t| t.id).collect();
    assert_eq!(ids.len(), 2);
    assert!(ids.contains(&"t1".to_string()) && ids.contains(&"t2".to_string()));
}

#[test]
fn deleted_task_is_gone_and_others_stay() {
    let mut store = InMemoryWorkflowStore::new();
    store.save_task(&Task::new("t1", "A", "d", "work", "now")).unwrap();
    store.save_task(&Task::new("t2", "B", "d", "work", "now")).unwrap();
    store.delete_task("t1").unwrap();
    assert!(store.get_task("t1").unwrap().is_none());
    assert_eq!(store.get_task("t2").unwrap().unwrap().title, "B");
    store.delete_task("missing").unwrap();
}

#[test]
fn subtasks_are_listed_by_parent() {
    let mut store = InMemoryWorkflowStore::new();
    store.save_task(&Task::new("p", "Parent", "d", "work", "now")).unwrap();
    store.save_task(&Task::new("c1", "Child", "d", "work", "now").with_parent("p")).unwrap();
    store.save_task(&Task::new("c2", "Other child", "d", "work", "now").with_parent("q")).unwrap();
    let subs = store.list_subtasks("p").unwrap();
    assert_eq!(subs.len(), 1);
    assert_eq!(subs[0].id, "c1");
}

#[test]
fn saved_session_reads_back() {
    let mut store = InMemoryWorkflowStore::new();
    let session = StageSession::new("s1", "t1", "work", "now");
    store.save_stage_session(&session).unwrap();
    let got = store.get_stage_session("t1", "work").unwrap().unwrap();
    assert_eq!(got.id, "s1");
    assert!(store.get_stage_session("t1", "review").unwrap().is_none());
    store.delete_stage_sessions("t1").unwrap();
    assert!(store.get_stage_sessions("t1").unwrap().is_empty());
}

#[test]
fn task_ids_are_padded_and_distinct() {
    let mut store = InMemoryWorkflowStore::new();
    let mut seen = Vec::new();
    for _ in 0..12 {
        seen.push(store.next_task_id().unwrap());
    }
    assert_eq!(seen[9], "task-010");
    assert_eq!(seen[11], "task-012");
    let mut dedup = seen.clone();
    dedup.dedup();
    assert_eq!(dedup.len(), seen.len());
}

#[test]
fn phase_text_round_trips() {
    for p in [Phase::SettingUp, Phase::Idle, Phase::AgentWorking, Phase::AwaitingReview, Phase::Integrating] {
        assert_eq!(parse_phase(phase_to_str(p)), p);
    }
    assert_eq!(phase_to_str(Phase::AwaitingReview), "awaiting_review");
}

#[test]
fn session_state_text_round_trips() {
    for s in [
        SessionState::Spawning,
        SessionState::Active,
        SessionState::Completed,
        SessionState::Abandoned,
        SessionState::Superseded,
    ] {
        assert_eq!(parse_session_state(session_state_to_str(s)), s);
    }
    assert_eq!(session_state_to_str(SessionState::Superseded), "superseded");
}

#[test]
fn artifact_set_then_read() {
    let mut store = ArtifactStore::new();
    store.set(Artifact::new("plan", "v1", "planning", "t0"));
    store.set(Artifact::new("plan", "v2", "planning", "t1"));
    store.set(Artifact::new("summary", "done", "work", "t2"));
    assert_eq!(store.content("plan"), Some("v2"));
    assert_eq!(store.len(), 2);
    store.remove("plan");
    assert_eq!(store.content("plan"), None);
}

#[test]
fn task_state_names() {
    assert_eq!(TaskState::queued("work").name(), "Queued");
    assert_eq!(TaskState::awaiting_rejection_confirmation("review").name(), "AwaitingRejectionConfirmation");
    assert_eq!(TaskState::Done.name(), "Done");
    assert_eq!(TaskState::agent_working("work").stage(), Some("work"));
    assert_eq!(TaskState::Integrating.stage(), None);
}

#[test]
fn spawned_process_runs_until_finished() {
    let mut spawner = MockProcessSpawner::new();
    let a = spawner.spawn(SpawnConfig { args: &[], cwd: "/w", stdin_content: "one" }).unwrap();
    let b = spawner.resume("sess", SpawnConfig { args: &[], cwd: "/w", stdin_content: "two" }).unwrap();
    assert_ne!(a.pid, b.pid);
    assert!(spawner.is_running(a.pid) && spawner.is_running(b.pid));
    spawner.finish_process(a.pid);
    assert!(!spawner.is_running(a.pid));
    assert!(spawner.is_running(b.pid));
    assert_eq!(spawner.get_prompts(), vec!["one".to_string(), "two".to_string()]);
    assert!(spawner.last_call().unwrap().is_resume);
    spawner.finish_all();
    assert!(!spawner.is_running(b.pid));
}
