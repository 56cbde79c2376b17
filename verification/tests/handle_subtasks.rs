//! Texts written for subtask breakdowns.

use orkestra_core::workflow::agent::interactions::handle_subtasks::{
    format_inline_artifact, format_subtasks_as_markdown, SubtaskOutput,
};

#[test]
fn test_format_single_subtask_inline() {
    let result = format_inline_artifact(
        "# Technical Design\n\nOverview here.",
        "Implement the following steps...",
    );

    assert!(result.contains("# Technical Design"));
    assert!(result.contains("---"));
    assert!(result.contains("## Implementation Instructions"));
    assert!(result.contains("Implement the following steps..."));

    // Content before separator, instructions after
    let sep_pos = result.find("---").unwrap();
    let instructions_pos = result.find("Implement the following").unwrap();
    let design_pos = result.find("# Technical Design").unwrap();
    assert!(design_pos < sep_pos);
    assert!(sep_pos < instructions_pos);
}

#[test]
fn test_format_subtasks_as_markdown() {
    let subtasks = vec![
        SubtaskOutput {
            title: "First subtask".to_string(),
            description: "Do the first thing".to_string(),
            detailed_instructions: "Detailed instructions here".to_string(),
            depends_on: vec![],
        },
        SubtaskOutput {
            title: "Second subtask".to_string(),
            description: "Do the second thing".to_string(),
            detailed_instructions: "More details".to_string(),
            depends_on: vec![0],
        },
        SubtaskOutput {
            title: "Third subtask".to_string(),
            description: "Do the third thing".to_string(),
            detailed_instructions: "Even more details".to_string(),
            depends_on: vec![0, 1],
        },
    ];

    let result = format_subtasks_as_markdown(&subtasks);

    assert!(result.contains("## Proposed Subtasks"));
    assert!(result.contains("### 1. First subtask"));
    assert!(result.contains("### 2. Second subtask"));
    assert!(result.contains("### 3. Third subtask"));

    assert!(result.contains("Do the first thing"));
    assert!(result.contains("Do the second thing"));
    assert!(result.contains("Do the third thing"));

    assert!(result.contains("**Depends on:** none"));
    assert!(result.contains("**Depends on:** subtask 1"));
    assert!(result.contains("**Depends on:** subtask 1, subtask 2"));

    // Detailed instructions should NOT be in the summary
    assert!(!result.contains("Detailed instructions here"));
}
