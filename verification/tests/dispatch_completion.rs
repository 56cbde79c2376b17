//! Routing finished executions to workflow calls and events.

use orkestra_core::workflow::agent::interactions::dispatch_completion::{
    completion_action, completion_event, completion_follow_up, output_failure_message, FollowUp, CompletionAction, ExecutionResult,
    OrchestratorEvent,
};

#[test]
fn agent_success_processes_output() {
    let a = completion_action(&ExecutionResult::AgentSuccess { output_type: "artifact".to_string() });
    assert_eq!(a, CompletionAction::ProcessOutput { output_type: "artifact".to_string() });
    assert_eq!(
        completion_event("t1", "work", &a, &Ok(())),
        OrchestratorEvent::OutputProcessed {
            task_id: "t1".to_string(),
            stage: "work".to_string(),
            output_type: "artifact".to_string()
        }
    );
    assert_eq!(
        completion_event("t1", "work", &a, &Err("bad output".to_string())),
        OrchestratorEvent::Error { task_id: Some("t1".to_string()), error: "bad output".to_string() }
    );
    assert_eq!(output_failure_message("bad output"), "Output processing failed: bad output");
}

#[test]
fn agent_errors_fail_the_execution() {
    for r in [
        ExecutionResult::AgentFailed("crash".to_string()),
        ExecutionResult::AgentMalformedOutput("crash".to_string()),
        ExecutionResult::PollError { error: "crash".to_string() },
    ] {
        let a = completion_action(&r);
        assert_eq!(a, CompletionAction::FailAgent { error: "crash".to_string(), message: "Agent error: crash".to_string() });
        assert_eq!(
            completion_event("t1", "work", &a, &Err("ignored".to_string())),
            OrchestratorEvent::Error { task_id: Some("t1".to_string()), error: "crash".to_string() }
        );
    }
}

#[test]
fn gate_results() {
    let pass = completion_action(&ExecutionResult::GateSuccess);
    assert_eq!(
        completion_event("t1", "checks", &pass, &Ok(())),
        OrchestratorEvent::GatePassed { task_id: "t1".to_string(), stage: "checks".to_string() }
    );
    let timed_out = completion_action(&ExecutionResult::GateFailed { output: "slow".to_string(), timed_out: true });
    assert_eq!(timed_out, CompletionAction::GateFailed { message: "Gate timed out:\nslow".to_string() });
    let failed = completion_action(&ExecutionResult::GateFailed { output: "red".to_string(), timed_out: false });
    assert_eq!(
        completion_event("t1", "checks", &failed, &Ok(())),
        OrchestratorEvent::GateFailed {
            task_id: "t1".to_string(),
            stage: "checks".to_string(),
            error: "Gate failed:\nred".to_string()
        }
    );
}

#[test]
fn processed_output_marks_session_active() {
    let a = completion_action(&ExecutionResult::AgentSuccess { output_type: "artifact".to_string() });
    assert_eq!(completion_follow_up(&a, &Ok(())), FollowUp::MarkSessionActive);
}

#[test]
fn failed_output_processing_fails_the_agent() {
    let a = completion_action(&ExecutionResult::AgentSuccess { output_type: "artifact".to_string() });
    assert_eq!(
        completion_follow_up(&a, &Err("Task not found: t1".to_string())),
        FollowUp::FailAgent { message: "Output processing failed: Task not found: t1".to_string() }
    );
}

#[test]
fn other_actions_have_no_follow_up() {
    let agent = completion_action(&ExecutionResult::AgentFailed("crash".to_string()));
    assert_eq!(completion_follow_up(&agent, &Ok(())), FollowUp::Nothing);
    let gate = completion_action(&ExecutionResult::GateFailed { output: "x".to_string(), timed_out: true });
    assert_eq!(completion_follow_up(&gate, &Err("e".to_string())), FollowUp::Nothing);
    assert_eq!(completion_follow_up(&CompletionAction::GatePassed, &Ok(())), FollowUp::Nothing);
}
