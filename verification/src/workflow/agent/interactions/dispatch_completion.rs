//! Routing a finished execution (agent or gate script): which workflow call
//! it leads to, and which orchestrator event is reported once that call has
//! run. The calls themselves are made by the orchestrator.

use vstd::prelude::*;

use crate::text::{owned, push_str};

verus! {

/// How an execution ended.
#[derive(Debug, Clone, PartialEq, Eq)]
pub enum ExecutionResult {
    /// The agent produced output of the given kind (`type_label` of the output).
    AgentSuccess { output_type: String },
    /// The agent process failed.
    AgentFailed(String),
    /// The agent's output could not be read.
    AgentMalformedOutput(String),
    /// Polling the agent failed.
    PollError { error: String },
    /// The stage's check command succeeded.
    GateSuccess,
    /// The check command failed or ran out of time, with its output.
    GateFailed { output: String, timed_out: bool },
}

/// The workflow call an execution result leads to.
#[derive(Debug, Clone, PartialEq, Eq)]
pub enum CompletionAction {
    /// Process the agent's output (then record that the session had activity).
    ProcessOutput { output_type: String },
    /// Fail the agent execution with `message`; `error` is reported.
    FailAgent { error: String, message: String },
    /// Record the check's success.
    GatePassed,
    /// Record the check's failure with `message`.
    GateFailed { message: String },
}

/// What the orchestrator reports about a finished execution.
#[derive(Debug, Clone, PartialEq, Eq)]
pub enum OrchestratorEvent {
    OutputProcessed { task_id: String, stage: String, output_type: String },
    Error { task_id: Option<String>, error: String },
    GatePassed { task_id: String, stage: String },
    GateFailed { task_id: String, stage: String, error: String },
}

/// The failure message of a gate: `Gate timed out:` or `Gate failed:`, a
/// newline, and the script's output.
pub open spec fn gate_message(output: Seq<char>, timed_out: bool) -> Seq<char> {
    if timed_out {
        "Gate timed out:\n"@ + output
    } else {
        "Gate failed:\n"@ + output
    }
}

/// The action of each result, as text views: agent errors are failed with
/// `Agent error: <error>`.
pub open spec fn completion_action_of(r: ExecutionResult) -> CompletionActionView {
    match r {
        ExecutionResult::AgentSuccess { output_type } => CompletionActionView::ProcessOutput(output_type@),
        ExecutionResult::AgentFailed(e) => CompletionActionView::FailAgent(e@, "Agent error: "@ + e@),
        ExecutionResult::AgentMalformedOutput(e) => CompletionActionView::FailAgent(e@, "Agent error: "@ + e@),
        ExecutionResult::PollError { error } => CompletionActionView::FailAgent(error@, "Agent error: "@ + error@),
        ExecutionResult::GateSuccess => CompletionActionView::GatePassed,
        ExecutionResult::GateFailed { output, timed_out } => CompletionActionView::GateFailed(
            gate_message(output@, timed_out),
        ),
    }
}

/// A [`CompletionAction`] with its text as character sequences.
pub enum CompletionActionView {
    ProcessOutput(Seq<char>),
    FailAgent(Seq<char>, Seq<char>),
    GatePassed,
    GateFailed(Seq<char>),
}

pub open spec fn action_view(a: CompletionAction) -> CompletionActionView {
    match a {
        CompletionAction::ProcessOutput { output_type } => CompletionActionView::ProcessOutput(output_type@),
        CompletionAction::FailAgent { error, message } => CompletionActionView::FailAgent(error@, message@),
        CompletionAction::GatePassed => CompletionActionView::GatePassed,
        CompletionAction::GateFailed { message } => CompletionActionView::GateFailed(message@),
    }
}

/// An [`OrchestratorEvent`] with its text as character sequences.
pub enum EventView {
    OutputProcessed(Seq<char>, Seq<char>, Seq<char>),
    Error(Option<Seq<char>>, Seq<char>),
    GatePassed(Seq<char>, Seq<char>),
    GateFailed(Seq<char>, Seq<char>, Seq<char>),
}

pub open spec fn event_view(e: OrchestratorEvent) -> EventView {
    match e {
        OrchestratorEvent::OutputProcessed { task_id, stage, output_type } => EventView::OutputProcessed(
            task_id@,
            stage@,
            output_type@,
        ),
        OrchestratorEvent::Error { task_id, error } => EventView::Error(
            match task_id {
                Some(t) => Some(t@),
                None => None,
            },
            error@,
        ),
        OrchestratorEvent::GatePassed { task_id, stage } => EventView::GatePassed(task_id@, stage@),
        OrchestratorEvent::GateFailed { task_id, stage, error } => EventView::GateFailed(task_id@, stage@, error@),
    }
}

/// The event once the action's call returned `outcome` (`Err` with the
/// error's text): a failed call is reported as an error of the task, except
/// for a failed agent, which is reported with the agent's error whatever the
/// call returned.
pub open spec fn completion_event_of(
    task_id: Seq<char>,
    stage: Seq<char>,
    a: CompletionActionView,
    outcome: Result<(), Seq<char>>,
) -> EventView {
    match a {
        CompletionActionView::FailAgent(error, _) => EventView::Error(Some(task_id), error),
        _ => match outcome {
            Err(e) => EventView::Error(Some(task_id), e),
            Ok(()) => match a {
                CompletionActionView::ProcessOutput(t) => EventView::OutputProcessed(task_id, stage, t),
                CompletionActionView::GatePassed => EventView::GatePassed(task_id, stage),
                CompletionActionView::GateFailed(m) => EventView::GateFailed(task_id, stage, m),
                CompletionActionView::FailAgent(error, _) => EventView::Error(Some(task_id), error),
            },
        },
    }
}

/// The call an execution result leads to.
pub fn completion_action(result: &ExecutionResult) -> (r: CompletionAction)
    ensures
        action_view(r) == completion_action_of(*result),
{
    match result {
        ExecutionResult::AgentSuccess { output_type } => CompletionAction::ProcessOutput {
            output_type: output_type.clone(),
        },
        ExecutionResult::AgentFailed(e) | ExecutionResult::AgentMalformedOutput(e) | ExecutionResult::PollError {
            error: e,
        } => {
            let mut message = owned("Agent error: ");
            push_str(&mut message, e.as_str());
            CompletionAction::FailAgent { error: e.clone(), message }
        },
        ExecutionResult::GateSuccess => CompletionAction::GatePassed,
        ExecutionResult::GateFailed { output, timed_out } => {
            let mut message = if *timed_out {
                owned("Gate timed out:\n")
            } else {
                owned("Gate failed:\n")
            };
            push_str(&mut message, output.as_str());
            CompletionAction::GateFailed { message }
        },
    }
}

/// The event to report once the action's call returned `outcome`.
pub fn completion_event(task_id: &str, stage: &str, a: &CompletionAction, outcome: &Result<(), String>) -> (r:
    OrchestratorEvent)
    ensures
        event_view(r) == completion_event_of(
            task_id@,
            stage@,
            action_view(*a),
            match outcome {
                Ok(()) => Ok(()),
                Err(e) => Err(e@),
            },
        ),
{
    if let CompletionAction::FailAgent { error, .. } = a {
        return OrchestratorEvent::Error { task_id: Some(owned(task_id)), error: error.clone() };
    }
    match outcome {
        Err(e) => OrchestratorEvent::Error { task_id: Some(owned(task_id)), error: e.clone() },
        Ok(()) => match a {
            CompletionAction::ProcessOutput { output_type } => OrchestratorEvent::OutputProcessed {
                task_id: owned(task_id),
                stage: owned(stage),
                output_type: output_type.clone(),
            },
            CompletionAction::GatePassed => OrchestratorEvent::GatePassed {
                task_id: owned(task_id),
                stage: owned(stage),
            },
            CompletionAction::GateFailed { message } => OrchestratorEvent::GateFailed {
                task_id: owned(task_id),
                stage: owned(stage),
                error: message.clone(),
            },
            CompletionAction::FailAgent { error, .. } => OrchestratorEvent::Error {
                task_id: Some(owned(task_id)),
                error: error.clone(),
            },
        },
    }
}

/// The message an agent execution is failed with when its output could not
/// be processed.
pub fn output_failure_message(error: &str) -> (r: String)
    ensures
        r@ == "Output processing failed: "@ + error@,
{
    let mut m = owned("Output processing failed: ");
    push_str(&mut m, error);
    m
}

/// What the orchestrator does after the action's call has run, besides
/// reporting the event.
#[derive(Debug, Clone, PartialEq, Eq)]
pub enum FollowUp {
    /// Nothing more.
    Nothing,
    /// Output was processed: record that the stage session had activity, so
    /// that the next run resumes it.
    MarkSessionActive,
    /// Processing the output failed: fail the agent execution with `message`.
    FailAgent { message: String },
}

/// `None` for nothing, `Some(None)` for marking the session active,
/// `Some(Some(message))` for failing the agent with `message`.
pub open spec fn follow_up_view(f: FollowUp) -> Option<Option<Seq<char>>> {
    match f {
        FollowUp::Nothing => None,
        FollowUp::MarkSessionActive => Some(None),
        FollowUp::FailAgent { message } => Some(Some(message@)),
    }
}

/// After processing output: on success the session is marked active, on a
/// failure (with the error's text) the agent is failed with
/// `Output processing failed: <error>`. No other action has a follow-up.
pub open spec fn follow_up_of(a: CompletionActionView, outcome: Result<(), Seq<char>>) -> Option<Option<Seq<char>>> {
    match a {
        CompletionActionView::ProcessOutput(_) => match outcome {
            Ok(()) => Some(None),
            Err(e) => Some(Some("Output processing failed: "@ + e)),
        },
        _ => None,
    }
}

/// The follow-up once the action's call returned `outcome`.
pub fn completion_follow_up(a: &CompletionAction, outcome: &Result<(), String>) -> (r: FollowUp)
    ensures
        follow_up_view(r) == follow_up_of(
            action_view(*a),
            match outcome {
                Ok(()) => Ok(()),
                Err(e) => Err(e@),
            },
        ),
{
    match a {
        CompletionAction::ProcessOutput { .. } => match outcome {
            Ok(()) => FollowUp::MarkSessionActive,
            Err(e) => FollowUp::FailAgent { message: output_failure_message(e.as_str()) },
        },
        _ => FollowUp::Nothing,
    }
}

} // verus!
