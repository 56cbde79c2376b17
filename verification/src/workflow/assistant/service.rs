//! How a finished assistant run is classified and what the user is told.

use vstd::prelude::*;

use crate::text::{
    contains_seq, is_blank, join_strings, join_with, owned, push_str, str_contains, strings_view, trim, trimmed,
};
use crate::workflow::domain::log_entry::LogEntry;
use crate::workflow::runtime::{Artifact, ArtifactStore};

verus! {

/// What the agent CLI writes on stderr when `--resume` names a session it no
/// longer has.
pub const SESSION_LOST_SENTINEL: &'static str = "No conversation found with session ID";

/// How an agent run ended.
#[derive(Debug, PartialEq, Eq)]
pub enum CompletionDiagnostic {
    /// The agent produced visible content.
    Healthy,
    /// The agent exited without visible output; its stderr (possibly empty).
    SilentFailure { stderr: String },
    /// The agent CLI lost the session being resumed.
    SessionLost,
}

/// Visible content wins; otherwise the session-lost sentinel on stderr means
/// the session was lost, and anything else is a silent failure.
pub open spec fn completion_of(produced_visible_content: bool, stderr: Seq<char>) -> Option<Option<Seq<char>>> {
    if produced_visible_content {
        None
    } else if contains_seq(stderr, SESSION_LOST_SENTINEL@) {
        Some(None)
    } else {
        Some(Some(stderr))
    }
}

/// A diagnostic as `completion_of` describes it: `None` healthy,
/// `Some(None)` session lost, `Some(Some(stderr))` silent failure.
pub open spec fn diagnostic_view(d: CompletionDiagnostic) -> Option<Option<Seq<char>>> {
    match d {
        CompletionDiagnostic::Healthy => None,
        CompletionDiagnostic::SessionLost => Some(None),
        CompletionDiagnostic::SilentFailure { stderr } => Some(Some(stderr@)),
    }
}

/// Classifies a finished run.
pub fn analyze_completion(produced_visible_content: bool, stderr: &str) -> (r: CompletionDiagnostic)
    ensures
        diagnostic_view(r) == completion_of(produced_visible_content, stderr@),
{
    if produced_visible_content {
        return CompletionDiagnostic::Healthy;
    }
    if str_contains(stderr, SESSION_LOST_SENTINEL) {
        return CompletionDiagnostic::SessionLost;
    }
    CompletionDiagnostic::SilentFailure { stderr: owned(stderr) }
}

pub open spec fn session_lost_text() -> Seq<char> {
    "The assistant session was lost (the agent CLI no longer has the conversation). Your next message will start a fresh conversation."@
}

pub open spec fn no_response_text() -> Seq<char> {
    "Assistant agent exited without producing a response."@
}

/// The message shown for a diagnostic: none when healthy; for a silent
/// failure, the trimmed stderr is appended when there is any.
pub open spec fn diagnostic_text(d: CompletionDiagnostic) -> Option<Seq<char>> {
    match d {
        CompletionDiagnostic::Healthy => None,
        CompletionDiagnostic::SessionLost => Some(session_lost_text()),
        CompletionDiagnostic::SilentFailure { stderr } => if trim(stderr@).len() == 0 {
            Some(no_response_text())
        } else {
            Some("Assistant agent exited without producing a response.\n\nstderr:\n"@ + trim(stderr@))
        },
    }
}

/// Builds the message shown for a diagnostic.
pub fn format_diagnostic_message(diagnostic: &CompletionDiagnostic) -> (r: Option<String>)
    ensures
        match diagnostic_text(*diagnostic) {
            Some(t) => r matches Some(s) && s@ == t,
            None => r is None,
        },
{
    match diagnostic {
        CompletionDiagnostic::Healthy => None,
        CompletionDiagnostic::SessionLost => Some(
            owned(
                "The assistant session was lost (the agent CLI no longer has the conversation). Your next message will start a fresh conversation.",
            ),
        ),
        CompletionDiagnostic::SilentFailure { stderr } => {
            if is_blank(stderr.as_str()) {
                Some(owned("Assistant agent exited without producing a response."))
            } else {
                let mut m = owned("Assistant agent exited without producing a response.\n\nstderr:\n");
                let t = trimmed(stderr.as_str());
                push_str(&mut m, t.as_str());
                Some(m)
            }
        },
    }
}

/// Entries the user sees in the chat: text, tool uses (also a subagent's)
/// and errors.
pub open spec fn is_visible(entry: LogEntry) -> bool {
    match entry {
        LogEntry::Text { .. } => true,
        LogEntry::ToolUse { .. } => true,
        LogEntry::SubagentToolUse { .. } => true,
        LogEntry::Error { .. } => true,
        _ => false,
    }
}

/// Whether a log entry is visible content.
pub fn is_visible_log_entry(entry: &LogEntry) -> (r: bool)
    ensures
        r == is_visible(*entry),
{
    match entry {
        LogEntry::Text { .. } | LogEntry::ToolUse { .. } | LogEntry::SubagentToolUse { .. } | LogEntry::Error {
            ..
        } => true,
        _ => false,
    }
}

/// One artifact as the task assistant sees it: its name as a heading, then
/// its content.
pub open spec fn artifact_section(a: Artifact) -> Seq<char> {
    "### "@ + a.name@ + "\n\n"@ + a.content@
}

/// The artifacts part of the task assistant's prompt: each artifact's
/// section, separated by horizontal rules, or a note that there are none.
pub open spec fn artifacts_text(artifacts: Seq<Artifact>) -> Seq<char> {
    if artifacts.len() == 0 {
        "No artifacts yet."@
    } else {
        join_with(artifacts.map_values(|a: Artifact| artifact_section(a)), "\n\n---\n\n"@)
    }
}

/// Writes a task's artifacts for the task assistant's prompt.
pub fn task_artifacts_text(artifacts: &ArtifactStore) -> (r: String)
    ensures
        r@ == artifacts_text(artifacts@),
{
    if artifacts.is_empty() {
        return owned("No artifacts yet.");
    }
    let all = artifacts.all();
    let mut sections: Vec<String> = Vec::new();
    let mut i: usize = 0;
    while i < all.len()
        invariant
            i <= all.len(),
            all@ == artifacts@,
            strings_view(sections@) == all@.take(i as int).map_values(
                |a: Artifact| artifact_section(a),
            ),
        decreases all.len() - i,
    {
        let a = &all[i];
        let mut s = owned("### ");
        push_str(&mut s, a.name.as_str());
        push_str(&mut s, "\n\n");
        push_str(&mut s, a.content.as_str());
        let ghost before = strings_view(sections@);
        sections.push(s);
        assert(strings_view(sections@) =~= before.push(artifact_section(all@[i as int])));
        assert(all@.take(i + 1).map_values(|a: Artifact| artifact_section(a)) =~= all@.take(
            i as int,
        ).map_values(|a: Artifact| artifact_section(a)).push(artifact_section(all@[i as int])));
        i = i + 1;
    }
    assert(all@.take(all.len() as int) =~= all@);
    join_strings(&sections, "\n\n---\n\n")
}

/// Disallowed tools of the read-only project assistant: no file changes.
pub const ASSISTANT_DISALLOWED_TOOLS: &'static str =
    "EnterPlanMode,ExitPlanMode,Edit,Write,NotebookEdit,AskUserQuestion";

/// Disallowed tools of an interactive task session: only the platform's own.
pub const INTERACTIVE_DISALLOWED_TOOLS: &'static str = "EnterPlanMode,ExitPlanMode";

/// Command-line arguments of an assistant agent process: a resumed session is
/// named with `--resume`, a new one with `--session-id`; output is streamed
/// as JSON; the disallowed tools are passed on; a system prompt is given only
/// to a new session.
pub open spec fn assistant_args(
    session_id: Option<Seq<char>>,
    is_resume: bool,
    system_prompt: Seq<char>,
    disallowed_tools: Seq<char>,
) -> Seq<Seq<char>> {
    let session = match session_id {
        Some(sid) => if is_resume {
            seq!["--resume"@, sid]
        } else {
            seq!["--session-id"@, sid]
        },
        None => Seq::empty(),
    };
    let common = seq![
        "--print"@,
        "--verbose"@,
        "--output-format"@,
        "stream-json"@,
        "--dangerously-skip-permissions"@,
        "--disallowedTools"@,
        disallowed_tools,
    ];
    let prompt = if is_resume {
        Seq::empty()
    } else {
        seq!["--system-prompt"@, system_prompt]
    };
    session + common + prompt
}

/// Builds the arguments of an assistant agent process.
pub fn assistant_process_args(
    session_id: Option<&str>,
    is_resume: bool,
    system_prompt: &str,
    disallowed_tools: &str,
) -> (r: Vec<String>)
    ensures
        strings_view(r@) == assistant_args(
            match session_id {
                Some(s) => Some(s@),
                None => None,
            },
            is_resume,
            system_prompt@,
            disallowed_tools@,
        ),
{
    let mut args: Vec<String> = Vec::new();
    if let Some(sid) = session_id {
        if is_resume {
            args.push(owned("--resume"));
        } else {
            args.push(owned("--session-id"));
        }
        args.push(owned(sid));
    }
    args.push(owned("--print"));
    args.push(owned("--verbose"));
    args.push(owned("--output-format"));
    args.push(owned("stream-json"));
    args.push(owned("--dangerously-skip-permissions"));
    args.push(owned("--disallowedTools"));
    args.push(owned(disallowed_tools));
    if !is_resume {
        args.push(owned("--system-prompt"));
        args.push(owned(system_prompt));
    }
    let ghost want = assistant_args(
        match session_id {
            Some(s) => Some(s@),
            None => None,
        },
        is_resume,
        system_prompt@,
        disallowed_tools@,
    );
    assert(strings_view(args@) =~= want);
    args
}

} // verus!
