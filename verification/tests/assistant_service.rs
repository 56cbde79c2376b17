//! Classification of finished assistant runs and the messages shown.

use orkestra_core::workflow::assistant::service::{
    analyze_completion, format_diagnostic_message, is_visible_log_entry, CompletionDiagnostic,
};
use orkestra_core::workflow::assistant::service::{
    assistant_process_args, task_artifacts_text, ASSISTANT_DISALLOWED_TOOLS,
};
use orkestra_core::workflow::domain::log_entry::{LogEntry, ToolInput};
use orkestra_core::workflow::runtime::{Artifact, ArtifactStore};

#[test]
fn analyze_completion_visible_content_is_healthy() {
    let result = analyze_completion(true, "some stderr noise");
    assert_eq!(result, CompletionDiagnostic::Healthy);
}

#[test]
fn analyze_completion_no_content_no_stderr_is_silent_failure() {
    let result = analyze_completion(false, "");
    assert_eq!(
        result,
        CompletionDiagnostic::SilentFailure {
            stderr: String::new()
        }
    );
}

#[test]
fn analyze_completion_no_content_with_stderr_is_silent_failure() {
    let result = analyze_completion(false, "some unrecognized error");
    assert_eq!(
        result,
        CompletionDiagnostic::SilentFailure {
            stderr: "some unrecognized error".to_string(),
        }
    );
}

#[test]
fn analyze_completion_session_lost_takes_priority() {
    let stderr = "some preamble\nNo conversation found with session ID: abc-123\nmore noise";
    let result = analyze_completion(false, stderr);
    assert_eq!(result, CompletionDiagnostic::SessionLost);
}

#[test]
fn analyze_completion_visible_content_overrides_session_lost_sentinel() {
    // If the agent did produce content, even a session-lost-shaped stderr
    // shouldn't trigger recovery — visible content always wins.
    let stderr = "No conversation found with session ID: abc-123";
    let result = analyze_completion(true, stderr);
    assert_eq!(result, CompletionDiagnostic::Healthy);
}

#[test]
fn format_diagnostic_message_healthy_returns_none() {
    let msg = format_diagnostic_message(&CompletionDiagnostic::Healthy);
    assert_eq!(msg, None);
}

#[test]
fn format_diagnostic_message_session_lost_explains_recovery() {
    let msg = format_diagnostic_message(&CompletionDiagnostic::SessionLost)
        .expect("session lost should produce a message");
    assert!(msg.contains("session was lost"));
    assert!(msg.contains("fresh conversation"));
}

#[test]
fn format_diagnostic_message_silent_failure_includes_stderr() {
    let diagnostic = CompletionDiagnostic::SilentFailure {
        stderr: "auth: invalid token\n".to_string(),
    };
    let msg = format_diagnostic_message(&diagnostic).expect("must produce a message");
    assert!(msg.contains("exited without producing a response"));
    assert!(msg.contains("auth: invalid token"));
}

#[test]
fn format_diagnostic_message_silent_failure_omits_stderr_section_when_empty() {
    let diagnostic = CompletionDiagnostic::SilentFailure {
        stderr: "   \n  ".to_string(),
    };
    let msg = format_diagnostic_message(&diagnostic).expect("must produce a message");
    assert!(msg.contains("exited without producing a response"));
    assert!(!msg.contains("stderr:"));
}

#[test]
fn is_visible_log_entry_classifies_correctly() {
    assert!(is_visible_log_entry(&LogEntry::Text {
        content: "hi".into()
    }));
    assert!(is_visible_log_entry(&LogEntry::Error {
        message: "boom".into()
    }));
    assert!(is_visible_log_entry(&LogEntry::ToolUse {
        tool: "Bash".into(),
        id: "t1".into(),
        input: ToolInput::Bash {
            command: "ls".into()
        },
    }));
    assert!(is_visible_log_entry(&LogEntry::SubagentToolUse {
        tool: "Read".into(),
        id: "t2".into(),
        input: ToolInput::Read {
            file_path: "/tmp/x".into()
        },
        parent_task_id: "p1".into(),
    }));

    // Not visible
    assert!(!is_visible_log_entry(&LogEntry::ProcessExit {
        code: Some(0)
    }));
    assert!(!is_visible_log_entry(&LogEntry::UserMessage {
        resume_type: "message".into(),
        content: "user said".into(),
    }));
    assert!(!is_visible_log_entry(&LogEntry::ToolResult {
        tool: "Bash".into(),
        tool_use_id: "t1".into(),
        content: "stdout".into(),
    }));
}

#[test]
fn task_artifacts_text_lists_sections() {
    let mut store = ArtifactStore::new();
    assert_eq!(task_artifacts_text(&store), "No artifacts yet.");
    store.set(Artifact::new("plan", "Step 1", "planning", "t0"));
    store.set(Artifact::new("summary", "Done", "work", "t1"));
    assert_eq!(task_artifacts_text(&store), "### plan\n\nStep 1\n\n---\n\n### summary\n\nDone");
}

#[test]
fn process_args_for_new_and_resumed_sessions() {
    let new = assistant_process_args(Some("s-1"), false, "be brief", ASSISTANT_DISALLOWED_TOOLS);
    assert_eq!(
        new,
        vec![
            "--session-id",
            "s-1",
            "--print",
            "--verbose",
            "--output-format",
            "stream-json",
            "--dangerously-skip-permissions",
            "--disallowedTools",
            "EnterPlanMode,ExitPlanMode,Edit,Write,NotebookEdit,AskUserQuestion",
            "--system-prompt",
            "be brief",
        ]
    );
    let resumed = assistant_process_args(Some("s-1"), true, "be brief", "X");
    assert_eq!(&resumed[..2], &["--resume".to_string(), "s-1".to_string()]);
    assert!(!resumed.contains(&"--system-prompt".to_string()));
    let anonymous = assistant_process_args(None, false, "p", "X");
    assert_eq!(anonymous[0], "--print");
}
