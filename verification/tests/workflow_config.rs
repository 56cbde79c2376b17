//! Workflow configuration: construction, lookups, flows and validation.

use indexmap::IndexMap;
use orkestra_core::testutil::fixtures::test_default_workflow;
use orkestra_core::workflow::config::stage::{
    DisallowedToolEntry, ScriptStageConfig, StageCapabilities, StageConfig, SubtaskCapabilities,
};
use orkestra_core::workflow::config::workflow::{
    FlowConfig, FlowStageEntry, FlowStageOverride, IntegrationConfig, WorkflowConfig,
};

/// Builders the tests use to set stage fields.
trait StageBuilders {
    fn with_description(self, description: &str) -> Self;
    fn with_disallowed_tools(self, tools: Vec<DisallowedToolEntry>) -> Self;
    fn restart_on_reentry(self) -> Self;
}

impl StageBuilders for StageConfig {
    fn with_description(mut self, description: &str) -> Self {
        self.description = Some(description.to_string());
        self
    }

    fn with_disallowed_tools(mut self, tools: Vec<DisallowedToolEntry>) -> Self {
        self.disallowed_tools = tools;
        self
    }

    fn restart_on_reentry(mut self) -> Self {
        self.restart_on_reentry = true;
        self
    }
}


#[test]
fn test_integration_config_default() {
    let config = IntegrationConfig::default();
    assert_eq!(config.on_failure, "work");
}

#[test]
fn test_workflow_new() {
    let workflow = WorkflowConfig::new(vec![
        StageConfig::new("planning", "plan"),
        StageConfig::new("work", "summary"),
    ]);

    assert_eq!(workflow.version, 1);
    assert_eq!(workflow.stages.len(), 2);
}

#[test]
fn test_workflow_stage_lookup() {
    let workflow = test_default_workflow();

    let planning = workflow.stage("planning");
    assert!(planning.is_some());
    assert_eq!(planning.unwrap().artifact, "plan");

    let missing = workflow.stage("nonexistent");
    assert!(missing.is_none());
}

#[test]
fn test_workflow_next_stage() {
    let workflow = test_default_workflow();

    let next = workflow.next_stage("planning");
    assert!(next.is_some());
    assert_eq!(next.unwrap().name, "breakdown");

    let next = workflow.next_stage("review");
    assert!(next.is_none()); // Last stage
}

#[test]
fn test_workflow_stage_names() {
    let workflow = test_default_workflow();
    let names = workflow.stage_names();
    assert_eq!(names, vec!["planning", "breakdown", "work", "review"]);
}

#[test]
fn test_workflow_validation_valid() {
    let workflow = test_default_workflow();
    assert!(workflow.is_valid());
    assert!(workflow.validate().is_empty());
}

#[test]
fn test_workflow_validation_empty() {
    let workflow = WorkflowConfig::new(vec![]);
    let errors = workflow.validate();
    assert!(!errors.is_empty());
    assert!(errors[0].contains("at least one stage"));
}

#[test]
fn test_workflow_validation_duplicate_stage_name() {
    let workflow = WorkflowConfig::new(vec![
        StageConfig::new("planning", "plan"),
        StageConfig::new("planning", "other"), // Duplicate name
    ]);
    let errors = workflow.validate();
    assert!(errors.iter().any(|e| e.contains("Duplicate stage name")));
}

#[test]
fn test_workflow_validation_duplicate_artifact() {
    let workflow = WorkflowConfig::new(vec![
        StageConfig::new("planning", "plan"),
        StageConfig::new("work", "plan"), // Duplicate artifact
    ]);
    let errors = workflow.validate();
    assert!(errors.iter().any(|e| e.contains("Duplicate artifact name")));
}

#[test]
fn test_workflow_validation_unknown_input() {
    let workflow = WorkflowConfig::new(vec![
        StageConfig::new("planning", "plan"),
        StageConfig::new("work", "summary").with_inputs(vec!["nonexistent".into()]),
    ]);
    let errors = workflow.validate();
    assert!(errors
        .iter()
        .any(|e| e.contains("nonexistent") && e.contains("doesn't exist")));
}

#[test]
fn test_workflow_validation_forward_reference() {
    let workflow = WorkflowConfig::new(vec![
        StageConfig::new("planning", "plan").with_inputs(vec!["summary".into()]), // References later artifact
        StageConfig::new("work", "summary"),
    ]);
    let errors = workflow.validate();
    assert!(errors.iter().any(|e| e.contains("comes later")));
}

#[test]
fn test_default_workflow_matches_orkestra() {
    let workflow = test_default_workflow();

    // Should have 4 stages
    assert_eq!(workflow.stages.len(), 4);

    // Planning can ask questions
    let planning = workflow.stage("planning").unwrap();
    assert!(planning.capabilities.ask_questions);
    assert!(!planning.capabilities.produces_subtasks());

    // Breakdown can produce subtasks
    let breakdown = workflow.stage("breakdown").unwrap();
    assert!(breakdown.capabilities.produces_subtasks());

    // Review is automated and has approval capability
    let review = workflow.stage("review").unwrap();
    assert!(review.is_automated);
    assert!(review.capabilities.has_approval());
    assert_eq!(review.capabilities.rejection_stage(), Some("work"));
}

#[test]
fn test_default_workflow_has_prompt_paths() {
    let workflow = test_default_workflow();

    // Each stage should have the correct prompt path
    let planning = workflow.stage("planning").unwrap();
    assert_eq!(planning.prompt_path(), Some("planner.md".to_string()));

    let breakdown = workflow.stage("breakdown").unwrap();
    assert_eq!(breakdown.prompt_path(), Some("breakdown.md".to_string()));

    let work = workflow.stage("work").unwrap();
    assert_eq!(work.prompt_path(), Some("worker.md".to_string()));

    let review = workflow.stage("review").unwrap();
    assert_eq!(review.prompt_path(), Some("review.md".to_string()));
}

#[test]
fn test_workflow_validation_invalid_approval_target() {

    let workflow = WorkflowConfig::new(vec![
        StageConfig::new("planning", "plan"),
        StageConfig::new("review", "verdict")
            .with_capabilities(StageCapabilities::with_approval(Some("nonexistent".into()))),
    ]);
    let errors = workflow.validate();
    assert!(errors
        .iter()
        .any(|e| e.contains("rejection_stage") && e.contains("doesn't exist")));
}

#[test]
fn test_workflow_validation_valid_approval_target() {

    let workflow = WorkflowConfig::new(vec![
        StageConfig::new("planning", "plan"),
        StageConfig::new("work", "summary"),
        StageConfig::new("review", "verdict")
            .with_capabilities(StageCapabilities::with_approval(Some("work".into()))),
    ]);
    let errors = workflow.validate();
    assert!(errors.is_empty(), "Expected no errors, got: {errors:?}");
}

#[test]
fn test_workflow_validation_approval_no_rejection_stage() {
    let workflow = WorkflowConfig::new(vec![
        StageConfig::new("planning", "plan"),
        StageConfig::new("work", "summary"),
        StageConfig::new("review", "verdict")
            .with_capabilities(StageCapabilities::with_approval(None)),
    ]);
    let errors = workflow.validate();
    assert!(errors.is_empty(), "Expected no errors, got: {errors:?}");
}

#[test]
fn test_workflow_with_integration_config() {
    let workflow = WorkflowConfig::new(vec![
        StageConfig::new("planning", "plan"),
        StageConfig::new("work", "summary"),
    ])
    .with_integration(IntegrationConfig {
        on_failure: "planning".to_string(),
    });

    assert_eq!(workflow.integration.on_failure, "planning");
    assert!(workflow.is_valid());
}

#[test]
fn test_workflow_validation_invalid_integration_on_failure() {
    let workflow = WorkflowConfig::new(vec![
        StageConfig::new("planning", "plan"),
        StageConfig::new("work", "summary"),
    ])
    .with_integration(IntegrationConfig {
        on_failure: "nonexistent".to_string(),
    });

    let errors = workflow.validate();
    assert!(errors
        .iter()
        .any(|e| e.contains("Integration on_failure") && e.contains("doesn't exist")));
}

#[test]
fn test_workflow_validation_restart_on_reentry_on_script_stage() {
    let mut script_stage = StageConfig::new_script("checks", "check_results", "cargo test");
    script_stage.restart_on_reentry = true; // Manually set (invalid)

    let workflow = WorkflowConfig::new(vec![
        StageConfig::new("planning", "plan"),
        script_stage,
        StageConfig::new("work", "summary"),
    ]);

    let errors = workflow.validate();
    assert!(
        errors.iter().any(|e| e.contains("restart_on_reentry")
            && e.contains("checks")
            && e.contains("only meaningful for agent stages")),
        "Expected validation error for restart_on_reentry on script stage. Got: {errors:?}"
    );
}

#[test]
fn test_workflow_validation_restart_on_reentry_on_agent_stage_valid() {
    let workflow = WorkflowConfig::new(vec![
        StageConfig::new("planning", "plan"),
        StageConfig::new("work", "summary").restart_on_reentry(),
    ]);

    let errors = workflow.validate();
    assert!(
        errors.is_empty(),
        "restart_on_reentry should be valid on agent stages. Got errors: {errors:?}"
    );
}

#[test]
fn test_workflow_with_script_stage() {
    let workflow = WorkflowConfig::new(vec![
        StageConfig::new("planning", "plan"),
        StageConfig::new("work", "summary"),
        StageConfig::new_script("checks", "check_results", "./run_checks.sh")
            .with_inputs(vec!["summary".into()]),
        StageConfig::new("review", "verdict").with_inputs(vec!["check_results".into()]),
    ]);

    let errors = workflow.validate();
    assert!(errors.is_empty(), "Expected no errors, got: {errors:?}");
}

#[test]
fn test_script_stage_with_valid_on_failure() {

    let mut stage = StageConfig::new_script("checks", "check_results", "./run.sh");
    stage.script = Some(ScriptStageConfig::new("./run.sh").with_on_failure("work"));

    let workflow = WorkflowConfig::new(vec![StageConfig::new("work", "summary"), stage]);

    let errors = workflow.validate();
    assert!(errors.is_empty(), "Expected no errors, got: {errors:?}");
}

#[test]
fn test_script_stage_with_invalid_on_failure() {

    let mut stage = StageConfig::new_script("checks", "check_results", "./run.sh");
    stage.script = Some(ScriptStageConfig::new("./run.sh").with_on_failure("nonexistent"));

    let workflow = WorkflowConfig::new(vec![StageConfig::new("work", "summary"), stage]);

    let errors = workflow.validate();
    assert!(errors
        .iter()
        .any(|e| e.contains("on_failure") && e.contains("doesn't exist")));
}

#[test]
fn test_script_stage_cannot_have_ask_questions() {

    let stage = StageConfig::new_script("checks", "check_results", "./run.sh")
        .with_capabilities(StageCapabilities::with_questions());

    let workflow = WorkflowConfig::new(vec![StageConfig::new("work", "summary"), stage]);

    let errors = workflow.validate();
    assert!(errors
        .iter()
        .any(|e| e.contains("Script stage") && e.contains("ask_questions")));
}

#[test]
fn test_script_stage_cannot_have_subtask_capabilities() {

    let stage = StageConfig::new_script("checks", "check_results", "./run.sh")
        .with_capabilities(StageCapabilities::with_subtasks());

    let workflow = WorkflowConfig::new(vec![StageConfig::new("work", "summary"), stage]);

    let errors = workflow.validate();
    assert!(errors
        .iter()
        .any(|e| e.contains("Script stage") && e.contains("subtask")));
}

#[test]
fn test_stage_cannot_have_both_prompt_and_script() {

    let mut stage = StageConfig::new("checks", "check_results");
    stage.prompt = Some("worker.md".to_string());
    stage.script = Some(ScriptStageConfig::new("./run.sh"));

    let workflow = WorkflowConfig::new(vec![stage]);

    let errors = workflow.validate();
    assert!(errors
        .iter()
        .any(|e| e.contains("has both prompt and script")));
}

#[test]
fn test_default_workflow_has_subtask_flow() {
    let workflow = test_default_workflow();

    // Breakdown stage should have subtasks.flow pointing to "subtask"
    let breakdown = workflow.stage("breakdown").unwrap();
    assert_eq!(breakdown.capabilities.subtask_flow(), Some("subtask"));

    // The "subtask" flow should exist
    let subtask_flow = workflow.flow("subtask");
    assert!(subtask_flow.is_some());
    let subtask_flow = subtask_flow.unwrap();
    assert_eq!(subtask_flow.stages.len(), 2);
    assert_eq!(subtask_flow.stages[0].stage_name, "work");
    assert_eq!(subtask_flow.stages[1].stage_name, "review");
}

#[test]
fn test_subtask_flow_references_existing_flow() {

    let workflow = WorkflowConfig::new(vec![
        StageConfig::new("planning", "plan"),
        StageConfig::new("breakdown", "breakdown").with_capabilities(StageCapabilities {
            subtasks: Some(SubtaskCapabilities::default().with_flow("nonexistent")),
            ..Default::default()
        }),
        StageConfig::new("work", "summary"),
    ]);

    let errors = workflow.validate();
    assert!(errors
        .iter()
        .any(|e| e.contains("subtasks.flow") && e.contains("doesn't exist")));
}

#[test]
fn test_completion_stage_references_existing_stage() {

    let workflow = WorkflowConfig::new(vec![
        StageConfig::new("breakdown", "breakdown").with_capabilities(StageCapabilities {
            subtasks: Some(SubtaskCapabilities::default().with_completion_stage("nonexistent")),
            ..Default::default()
        }),
        StageConfig::new("work", "summary"),
    ]);

    let errors = workflow.validate();
    assert!(errors
        .iter()
        .any(|e| e.contains("completion_stage") && e.contains("doesn't exist")));
}

#[test]
fn test_agent_model_specs_default_flow() {
    let planning = StageConfig::new("planning", "plan").with_model("sonnet");
    let checks = StageConfig::new_script("checks", "check_results", "./run.sh");
    let work = StageConfig::new("work", "summary").with_model("opus");

    let workflow = WorkflowConfig::new(vec![planning, checks, work]);

    let specs = workflow.agent_model_specs(None);
    assert_eq!(specs.len(), 2); // script stage excluded
    assert_eq!(specs[0], Some("sonnet".to_string()));
    assert_eq!(specs[1], Some("opus".to_string()));
}

#[test]
fn test_agent_model_specs_named_flow() {
    let planning = StageConfig::new("planning", "plan").with_model("sonnet");
    let checks = StageConfig::new_script("checks", "check_results", "./run.sh");
    let work = StageConfig::new("work", "summary").with_model("opus");

    let mut flows = IndexMap::new();
    flows.insert(
        "quick".to_string(),
        FlowConfig {
            description: "Quick flow".to_string(),
            icon: None,
            stages: vec![
                FlowStageEntry {
                    stage_name: "planning".to_string(),
                    overrides: None,
                },
                FlowStageEntry {
                    stage_name: "work".to_string(),
                    overrides: None,
                },
            ],
        },
    );

    let workflow = WorkflowConfig::new(vec![planning, checks, work]).with_flows(flows);

    let specs = workflow.agent_model_specs(Some("quick"));
    assert_eq!(specs.len(), 2); // only planning and work from flow
    assert_eq!(specs[0], Some("sonnet".to_string()));
    assert_eq!(specs[1], Some("opus".to_string()));
}

#[test]
fn test_agent_model_specs_with_flow_override() {
    let planning = StageConfig::new("planning", "plan").with_model("sonnet");
    let work = StageConfig::new("work", "summary").with_model("opus");

    let mut flows = IndexMap::new();
    flows.insert(
        "cheap".to_string(),
        FlowConfig {
            description: "Cheap flow".to_string(),
            icon: None,
            stages: vec![
                FlowStageEntry {
                    stage_name: "planning".to_string(),
                    overrides: Some(FlowStageOverride {
                        prompt: None,
                        capabilities: None,
                        model: Some("haiku".to_string()),
                        inputs: None,
                        disallowed_tools: None,
                    }),
                },
                FlowStageEntry {
                    stage_name: "work".to_string(),
                    overrides: None,
                },
            ],
        },
    );

    let workflow = WorkflowConfig::new(vec![planning, work]).with_flows(flows);

    let specs = workflow.agent_model_specs(Some("cheap"));
    assert_eq!(specs.len(), 2);
    assert_eq!(specs[0], Some("haiku".to_string())); // overridden
    assert_eq!(specs[1], Some("opus".to_string())); // not overridden
}

#[test]
fn test_agent_model_specs_nonexistent_flow() {
    let planning = StageConfig::new("planning", "plan").with_model("sonnet");
    let workflow = WorkflowConfig::new(vec![planning]);

    let specs = workflow.agent_model_specs(Some("nonexistent"));
    assert!(specs.is_empty());
}

#[test]
fn test_workflow_stage_entries_default_flow() {
    let workflow = WorkflowConfig::new(vec![
        StageConfig::new("plan", "plan").with_description("Create a plan"),
        StageConfig::new("work", "summary").with_description("Implement the plan"),
        StageConfig::new("review", "verdict"),
    ]);

    let entries = workflow.workflow_stage_entries("work", None);
    assert_eq!(entries.len(), 3);

    // Check first stage
    assert_eq!(entries[0].name, "plan");
    assert_eq!(entries[0].description, "Create a plan");
    assert!(!entries[0].is_current);

    // Check current stage
    assert_eq!(entries[1].name, "work");
    assert_eq!(entries[1].description, "Implement the plan");
    assert!(entries[1].is_current);

    // Check stage without description (should use display())
    assert_eq!(entries[2].name, "review");
    assert_eq!(entries[2].description, "Review");
    assert!(!entries[2].is_current);
}

#[test]
fn test_workflow_stage_entries_with_flow() {
    let mut flows = IndexMap::new();
    flows.insert(
        "quick".into(),
        FlowConfig {
            description: "Skip breakdown".into(),
            icon: Some("zap".into()),
            stages: vec![
                FlowStageEntry {
                    stage_name: "plan".into(),
                    overrides: None,
                },
                FlowStageEntry {
                    stage_name: "work".into(),
                    overrides: None,
                },
            ],
        },
    );

    let workflow = WorkflowConfig::new(vec![
        StageConfig::new("plan", "plan").with_description("Create a plan"),
        StageConfig::new("task", "breakdown"),
        StageConfig::new("work", "summary").with_description("Implement the plan"),
        StageConfig::new("review", "verdict"),
    ])
    .with_flows(flows);

    let entries = workflow.workflow_stage_entries("work", Some("quick"));
    assert_eq!(entries.len(), 2);

    // Should only include plan and work, not task or review
    assert_eq!(entries[0].name, "plan");
    assert_eq!(entries[0].description, "Create a plan");
    assert!(!entries[0].is_current);

    assert_eq!(entries[1].name, "work");
    assert_eq!(entries[1].description, "Implement the plan");
    assert!(entries[1].is_current);
}

#[test]
fn test_workflow_stage_entries_nonexistent_flow() {
    let workflow = WorkflowConfig::new(vec![StageConfig::new("plan", "plan")]);

    let entries = workflow.workflow_stage_entries("plan", Some("nonexistent"));
    assert!(entries.is_empty());
}

#[test]
fn test_workflow_stage_entries_description_fallback() {
    let workflow = WorkflowConfig::new(vec![
        StageConfig::new("planning", "plan"), // No display_name, should fall back to "Planning"
        StageConfig::new("work", "summary").with_display_name("Work Stage"), // Should fall back to "Work Stage"
    ]);

    let entries = workflow.workflow_stage_entries("work", None);
    assert_eq!(entries[0].description, "Planning");
    assert_eq!(entries[1].description, "Work Stage");
}

#[test]
fn test_effective_disallowed_tools_no_flow() {

    let tools = vec![DisallowedToolEntry {
        pattern: "Bash(cargo *)".to_string(),
        message: "Use checks stage".to_string(),
    }];

    let stage = StageConfig::new("work", "summary").with_disallowed_tools(tools.clone());
    let workflow = WorkflowConfig::new(vec![stage]);

    let effective = workflow.effective_disallowed_tools("work", None);
    assert_eq!(effective.len(), 1);
    assert_eq!(effective[0].pattern, "Bash(cargo *)");
}

#[test]
fn test_effective_disallowed_tools_flow_override() {

    let global_tools = vec![DisallowedToolEntry {
        pattern: "Bash(cargo *)".to_string(),
        message: "Global restriction".to_string(),
    }];

    let flow_tools = vec![DisallowedToolEntry {
        pattern: "Edit".to_string(),
        message: "Flow restriction".to_string(),
    }];

    let stage = StageConfig::new("work", "summary").with_disallowed_tools(global_tools);

    let mut flows = IndexMap::new();
    flows.insert(
        "restricted".to_string(),
        FlowConfig {
            description: "Restricted flow".to_string(),
            icon: None,
            stages: vec![FlowStageEntry {
                stage_name: "work".to_string(),
                overrides: Some(FlowStageOverride {
                    prompt: None,
                    capabilities: None,
                    model: None,
                    inputs: None,
                    disallowed_tools: Some(flow_tools),
                }),
            }],
        },
    );

    let workflow = WorkflowConfig::new(vec![stage]).with_flows(flows);

    let effective = workflow.effective_disallowed_tools("work", Some("restricted"));
    assert_eq!(effective.len(), 1);
    assert_eq!(effective[0].pattern, "Edit");
}

#[test]
fn test_effective_disallowed_tools_flow_no_override() {

    let global_tools = vec![DisallowedToolEntry {
        pattern: "Bash(cargo *)".to_string(),
        message: "Global restriction".to_string(),
    }];

    let stage = StageConfig::new("work", "summary").with_disallowed_tools(global_tools);

    let mut flows = IndexMap::new();
    flows.insert(
        "normal".to_string(),
        FlowConfig {
            description: "Normal flow".to_string(),
            icon: None,
            stages: vec![FlowStageEntry {
                stage_name: "work".to_string(),
                overrides: None,
            }],
        },
    );

    let workflow = WorkflowConfig::new(vec![stage]).with_flows(flows);

    let effective = workflow.effective_disallowed_tools("work", Some("normal"));
    assert_eq!(effective.len(), 1);
    assert_eq!(effective[0].pattern, "Bash(cargo *)");
}

#[test]
fn test_effective_disallowed_tools_flow_empty_override() {

    let global_tools = vec![DisallowedToolEntry {
        pattern: "Bash(cargo *)".to_string(),
        message: "Global restriction".to_string(),
    }];

    let stage = StageConfig::new("work", "summary").with_disallowed_tools(global_tools);

    let mut flows = IndexMap::new();
    flows.insert(
        "unrestricted".to_string(),
        FlowConfig {
            description: "Unrestricted flow".to_string(),
            icon: None,
            stages: vec![FlowStageEntry {
                stage_name: "work".to_string(),
                overrides: Some(FlowStageOverride {
                    prompt: None,
                    capabilities: None,
                    model: None,
                    inputs: None,
                    disallowed_tools: Some(vec![]),
                }),
            }],
        },
    );

    let workflow = WorkflowConfig::new(vec![stage]).with_flows(flows);

    let effective = workflow.effective_disallowed_tools("work", Some("unrestricted"));
    assert!(effective.is_empty());
}

#[test]
fn test_validate_disallowed_tools_on_script_stage() {

    let mut script_stage = StageConfig::new_script("checks", "check_results", "cargo test");
    script_stage.disallowed_tools = vec![DisallowedToolEntry {
        pattern: "Edit".to_string(),
        message: "Read-only".to_string(),
    }];

    let workflow = WorkflowConfig::new(vec![script_stage]);

    let errors = workflow.validate();
    assert!(
        errors.iter().any(|e| e.contains("disallowed_tools")
            && e.contains("checks")
            && e.contains("only used by agent stages")),
        "Expected validation error. Got: {errors:?}"
    );
}

#[test]
fn test_validate_disallowed_tools_empty_pattern() {

    let stage = StageConfig::new("work", "summary").with_disallowed_tools(vec![
        DisallowedToolEntry {
            pattern: "Bash(cargo *)".to_string(),
            message: "Valid".to_string(),
        },
        DisallowedToolEntry {
            pattern: "  ".to_string(),
            message: "Invalid".to_string(),
        },
    ]);

    let workflow = WorkflowConfig::new(vec![stage]);

    let errors = workflow.validate();
    assert!(
        errors
            .iter()
            .any(|e| e.contains("empty pattern") && e.contains("work")),
        "Expected validation error. Got: {errors:?}"
    );
}

#[test]
fn test_validate_disallowed_tools_on_agent_stage_valid() {

    let stage =
        StageConfig::new("work", "summary").with_disallowed_tools(vec![DisallowedToolEntry {
            pattern: "Bash(cargo *)".to_string(),
            message: "Use checks stage".to_string(),
        }]);

    let workflow = WorkflowConfig::new(vec![stage]);

    let errors = workflow.validate();
    assert!(
        errors.is_empty(),
        "Expected no errors for agent stage with disallowed_tools. Got: {errors:?}"
    );
}

#[test]
fn test_validate_disallowed_tools_empty_pattern_in_flow_override() {

    let stage = StageConfig::new("work", "summary");

    let mut flows = IndexMap::new();
    flows.insert(
        "restricted".to_string(),
        FlowConfig {
            description: "Restricted flow".to_string(),
            icon: None,
            stages: vec![FlowStageEntry {
                stage_name: "work".to_string(),
                overrides: Some(FlowStageOverride {
                    prompt: None,
                    capabilities: None,
                    model: None,
                    inputs: None,
                    disallowed_tools: Some(vec![
                        DisallowedToolEntry {
                            pattern: "Edit".to_string(),
                            message: "Valid".to_string(),
                        },
                        DisallowedToolEntry {
                            pattern: "  ".to_string(),
                            message: "Invalid".to_string(),
                        },
                    ]),
                }),
            }],
        },
    );

    let workflow = WorkflowConfig::new(vec![stage]).with_flows(flows);

    let errors = workflow.validate();
    assert!(
        errors.iter().any(|e| e.contains("empty pattern")
            && e.contains("restricted")
            && e.contains("work")),
        "Expected validation error for empty pattern in flow override. Got: {errors:?}"
    );
}

#[test]
fn test_flow_override_returns_none_for_missing_flow() {
    let workflow = WorkflowConfig::new(vec![StageConfig::new("work", "summary")]);
    // No flows defined — all effective_* should fall back to global
    assert_eq!(workflow.effective_model("work", Some("nonexistent")), None);
    assert!(workflow
        .effective_disallowed_tools("work", Some("nonexistent"))
        .is_empty());
}

#[test]
fn test_flow_override_returns_none_for_no_overrides() {
    let mut flows = IndexMap::new();
    flows.insert(
        "simple".to_string(),
        FlowConfig {
            description: "Simple".to_string(),
            icon: None,
            stages: vec![FlowStageEntry {
                stage_name: "work".to_string(),
                overrides: None,
            }],
        },
    );
    let workflow =
        WorkflowConfig::new(vec![StageConfig::new("work", "summary").with_model("opus")])
            .with_flows(flows);
    // Flow entry exists but has no overrides — should fall back to global
    assert_eq!(
        workflow.effective_model("work", Some("simple")),
        Some("opus".to_string())
    );
}
