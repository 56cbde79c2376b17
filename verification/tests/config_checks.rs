//! Checks made on configuration once it has been read: workflows, auto-task
//! templates, check-script metadata and the model registry.

use indexmap::IndexMap;
use orkestra_core::workflow::config::auto_task::{
    sort_templates, split_frontmatter, template_from_frontmatter, AutoTaskTemplate, Frontmatter,
};
use orkestra_core::workflow::config::loader::{accept_workflow, LoadError};
use orkestra_core::workflow::config::stage::{StageCapabilities, StageConfig};
use orkestra_core::workflow::config::technique::{
    check_metadata_yaml, validate_model_registry, ModelRegistry, TechniqueLoadError,
};
use orkestra_core::workflow::config::workflow::{
    FlowConfig, FlowStageEntry, IntegrationConfig, WorkflowConfig,
};

fn two_stage() -> WorkflowConfig {
    WorkflowConfig::new(vec![StageConfig::new("planning", "plan"), StageConfig::new("work", "summary")])
}

#[test]
fn valid_workflow_is_accepted_unchanged() {
    let accepted = accept_workflow(two_stage()).unwrap();
    assert_eq!(accepted, two_stage());
}

#[test]
fn invalid_workflow_reports_all_errors_joined() {
    let wf = WorkflowConfig::new(vec![StageConfig::new("a", "x"), StageConfig::new("a", "x")])
        .with_integration(IntegrationConfig { on_failure: "nowhere".to_string() });
    match accept_workflow(wf) {
        Err(LoadError::Validation(m)) => assert_eq!(
            m,
            "Duplicate stage name \"a\". Each stage must have a unique name.; \
Duplicate artifact name \"x\". Each stage must produce a unique artifact.; \
Integration on_failure references stage \"nowhere\" which doesn't exist. Valid stages: [\"a\", \"a\"]"
        ),
        other => panic!("expected a validation error, got {other:?}"),
    }
}

#[test]
fn empty_workflow_message() {
    let errors = WorkflowConfig::new(vec![]).validate();
    assert_eq!(errors[0], "Workflow must have at least one stage");
}

#[test]
fn unknown_rejection_stage_lists_valid_stages() {
    let wf = WorkflowConfig::new(vec![
        StageConfig::new("work", "summary"),
        StageConfig::new("check", "verdict")
            .with_capabilities(StageCapabilities::with_approval(Some("gone".to_string()))),
    ]);
    assert_eq!(
        wf.validate(),
        vec!["Stage \"check\" has approval rejection_stage \"gone\" which doesn't exist. Valid stages: [\"work\", \"check\"]"
            .to_string()]
    );
}

#[test]
fn flow_with_unknown_stage_is_refused() {
    let mut flows = IndexMap::new();
    flows.insert(
        "quick".to_string(),
        FlowConfig {
            description: "Quick".to_string(),
            icon: None,
            stages: vec![FlowStageEntry { stage_name: "ghost".to_string(), overrides: None }],
        },
    );
    let wf = two_stage().with_flows(flows);
    assert!(wf
        .validate()
        .contains(&"Flow \"quick\" references stage \"ghost\" which doesn't exist".to_string()));
    assert!(!wf.is_valid());
}

#[test]
fn reserved_and_empty_flows_are_refused() {
    let mut flows = IndexMap::new();
    flows.insert(
        "default".to_string(),
        FlowConfig {
            description: "d".to_string(),
            icon: None,
            stages: vec![FlowStageEntry { stage_name: "work".to_string(), overrides: None }],
        },
    );
    flows.insert("empty".to_string(), FlowConfig { description: "e".to_string(), icon: None, stages: vec![] });
    let errors = two_stage().with_flows(flows).validate();
    assert!(errors.contains(&"Flow name \"default\" is reserved for the full pipeline".to_string()));
    assert!(errors.contains(&"Flow \"empty\" has no stages".to_string()));
}

#[test]
fn next_then_previous_in_flow_returns() {
    let wf = WorkflowConfig::new(vec![
        StageConfig::new("planning", "plan"),
        StageConfig::new("work", "summary"),
        StageConfig::new("review", "verdict"),
    ]);
    let next = wf.next_stage_in_flow("planning", None).unwrap();
    assert_eq!(next.name, "work");
    assert_eq!(wf.previous_stage_in_flow(&next.name, None).unwrap().name, "planning");
    assert!(wf.previous_stage_in_flow("planning", None).is_none());
    assert!(wf.next_stage_in_flow("review", None).is_none());
}

#[test]
fn frontmatter_is_split_and_trimmed() {
    let (front, body) = split_frontmatter("---\ntitle: Clean up\nauto_run: true\n---\n\nDo the cleanup.\n").unwrap();
    assert_eq!(front, "title: Clean up\nauto_run: true");
    assert_eq!(body, "Do the cleanup.");
    assert!(split_frontmatter("no frontmatter").is_none());
    assert!(split_frontmatter("---\ntitle: never closed").is_none());
}

#[test]
fn template_needs_title_and_known_flow() {
    let wf = two_stage();
    let missing = Frontmatter { title: None, auto_run: false, flow: None };
    assert_eq!(
        template_from_frontmatter(missing, "body", "a.md", &wf).unwrap_err(),
        "missing required 'title' field"
    );
    let bad_flow = Frontmatter { title: Some("T".to_string()), auto_run: true, flow: Some("fast".to_string()) };
    assert_eq!(
        template_from_frontmatter(bad_flow, "body", "a.md", &wf).unwrap_err(),
        "flow \"fast\" does not exist in workflow config"
    );
    let ok = Frontmatter { title: Some("T".to_string()), auto_run: true, flow: None };
    let t = template_from_frontmatter(ok, "body", "a.md", &wf).unwrap();
    assert_eq!((t.title.as_str(), t.auto_run, t.flow, t.description.as_str(), t.filename.as_str()), ("T", true, None, "body", "a.md"));
}

#[test]
fn templates_sort_by_filename_stably() {
    let t = |title: &str, file: &str| AutoTaskTemplate {
        title: title.to_string(),
        auto_run: false,
        flow: None,
        description: String::new(),
        filename: file.to_string(),
    };
    let sorted = sort_templates(vec![t("c", "c.md"), t("a1", "a.md"), t("b", "b.md"), t("a2", "a.md")]);
    let titles: Vec<&str> = sorted.iter().map(|x| x.title.as_str()).collect();
    assert_eq!(titles, vec!["a1", "a2", "b", "c"]);
}

#[test]
fn check_metadata_between_delimiters() {
    let script = "#!/bin/sh\n# ---\n# title: Lint\n# timeout_seconds: 30\n# ---\nexit 0\n";
    assert_eq!(check_metadata_yaml(script).unwrap(), "title: Lint\ntimeout_seconds: 30");
}

#[test]
fn check_metadata_missing_delimiters() {
    assert_eq!(
        check_metadata_yaml("#!/bin/sh\nexit 0\n"),
        Err(TechniqueLoadError::Validation("check script missing '# ---' metadata delimiters".to_string()))
    );
    assert_eq!(
        check_metadata_yaml("# ---\n# title: x\n"),
        Err(TechniqueLoadError::Validation("check script missing closing '# ---' delimiter".to_string()))
    );
}

#[test]
fn model_registry_needs_default_and_ranked() {
    let ok = ModelRegistry { default: "sonnet".to_string(), ranked: vec!["opus".to_string()] };
    assert_eq!(validate_model_registry(ok.clone()), Ok(ok));
    assert_eq!(
        validate_model_registry(ModelRegistry { default: String::new(), ranked: vec!["opus".to_string()] }),
        Err(TechniqueLoadError::Validation("model registry 'default' must not be empty".to_string()))
    );
    assert_eq!(
        validate_model_registry(ModelRegistry { default: "sonnet".to_string(), ranked: vec![] }),
        Err(TechniqueLoadError::Validation("model registry 'ranked' must not be empty".to_string()))
    );
}
