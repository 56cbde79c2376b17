//! Stage configuration: builders, capabilities, prompt paths and scripts.

use orkestra_core::workflow::config::stage::{
    ApprovalCapabilities, ScriptStageConfig, StageCapabilities, StageConfig, SubtaskCapabilities,
};

#[test]
fn test_stage_config_new() {
    let stage = StageConfig::new("planning", "plan");
    assert_eq!(stage.name, "planning");
    assert_eq!(stage.artifact, "plan");
    assert!(stage.inputs.is_empty());
    assert!(!stage.is_automated);
    assert!(stage.is_agent_stage());
    assert!(!stage.is_script_stage());
}

#[test]
fn test_stage_config_builder() {
    let stage = StageConfig::new("work", "summary")
        .with_display_name("Working")
        .with_inputs(vec!["plan".into()]);

    assert_eq!(stage.display(), "Working");
    assert_eq!(stage.inputs, vec!["plan"]);
}

#[test]
fn test_display_name_fallback() {
    let stage = StageConfig::new("planning", "plan");
    assert_eq!(stage.display(), "Planning");
}

#[test]
fn test_capabilities_default() {
    let caps = StageCapabilities::default();
    assert!(!caps.ask_questions);
    assert!(!caps.produces_subtasks());
}

#[test]
fn test_capabilities_builders() {
    let with_questions = StageCapabilities::with_questions();
    assert!(with_questions.ask_questions);
    assert!(!with_questions.produces_subtasks());

    let with_subtasks = StageCapabilities::with_subtasks();
    assert!(!with_subtasks.ask_questions);
    assert!(with_subtasks.produces_subtasks());

    let all = StageCapabilities::all();
    assert!(all.ask_questions);
    assert!(all.produces_subtasks());
}

#[test]
fn test_capabilities_with_approval() {
    let caps = StageCapabilities::with_approval(Some("work".into()));
    assert!(caps.has_approval());
    assert_eq!(caps.rejection_stage(), Some("work"));
    assert!(!caps.ask_questions);
    assert!(!caps.produces_subtasks());
}

#[test]
fn test_capabilities_approval_default_rejection() {
    let caps = StageCapabilities::with_approval(None);
    assert!(caps.has_approval());
    assert_eq!(caps.rejection_stage(), None);
}

#[test]
fn test_capabilities_approval_default_none() {
    let caps = StageCapabilities::default();
    assert!(!caps.has_approval());
    assert_eq!(caps.rejection_stage(), None);
}

#[test]
fn test_reset_session_defaults_to_false() {
    let caps = StageCapabilities::with_approval(Some("work".into()));
    assert!(!caps.rejection_resets_session());
}

#[test]
fn test_reset_session_true() {
    let caps = StageCapabilities {
        approval: Some(ApprovalCapabilities {
            rejection_stage: Some("work".into()),
            reset_session: true,
        }),
        ..Default::default()
    };
    assert!(caps.rejection_resets_session());
    assert_eq!(caps.rejection_stage(), Some("work"));
}

#[test]
fn test_subtask_capabilities() {
    let caps = StageCapabilities {
        subtasks: Some(
            SubtaskCapabilities::default()
                .with_flow("quick")
                .with_completion_stage("review"),
        ),
        ..Default::default()
    };

    assert!(caps.produces_subtasks());
    assert_eq!(caps.subtask_flow(), Some("quick"));
    assert_eq!(caps.completion_stage(), Some("review"));
}

#[test]
fn test_subtask_capabilities_none() {
    let caps = StageCapabilities::default();
    assert!(!caps.produces_subtasks());
    assert_eq!(caps.subtask_flow(), None);
    assert_eq!(caps.completion_stage(), None);
}

#[test]
fn test_prompt_path_default() {
    let stage = StageConfig::new("planning", "plan");
    assert_eq!(stage.prompt_path(), Some("planning.md".to_string()));
}

#[test]
fn test_prompt_path_explicit() {
    let stage = StageConfig::new("planning", "plan").with_prompt("planner.md");
    assert_eq!(stage.prompt_path(), Some("planner.md".to_string()));
}

#[test]
fn test_prompt_path_script_stage() {
    let stage = StageConfig::new_script("checks", "check_results", "./run.sh");
    assert_eq!(stage.prompt_path(), None);
}

#[test]
fn test_stage_with_prompt() {
    let stage = StageConfig::new("planning", "plan").with_prompt("planner.md");

    assert!(stage.is_agent_stage());
    assert!(!stage.is_script_stage());
    assert_eq!(stage.prompt, Some("planner.md".to_string()));
}

#[test]
fn test_stage_with_script() {
    let stage = StageConfig::new_script("checks", "check_results", "./run_checks.sh")
        .with_inputs(vec!["summary".into()]);

    assert!(stage.is_script_stage());
    assert!(!stage.is_agent_stage());
    assert_eq!(stage.script_config().unwrap().command, "./run_checks.sh");
}

#[test]
fn test_script_config() {
    let script = ScriptStageConfig::new("npm test")
        .with_timeout(300)
        .with_on_failure("work");

    assert_eq!(script.command, "npm test");
    assert_eq!(script.timeout_seconds, 300);
    assert_eq!(script.on_failure, Some("work".to_string()));
}

#[test]
fn test_script_config_defaults() {
    let script = ScriptStageConfig::new("cargo test");
    assert_eq!(script.timeout_seconds, 120);
    assert!(script.on_failure.is_none());
}

#[test]
fn test_schema_file_builder() {
    let stage = StageConfig::new("custom", "output").with_schema_file("custom_schema.json");

    assert_eq!(stage.schema_file, Some("custom_schema.json".to_string()));
}
