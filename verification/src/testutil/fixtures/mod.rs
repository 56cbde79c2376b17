//! Fixture factories that create and save domain objects, by domain type.

use vstd::prelude::*;

use crate::text::owned;
use crate::workflow::config::flow_map::{flow_entries, flows_insert, flows_new};
use crate::workflow::config::stage::{StageCapabilities, StageConfig, SubtaskCapabilities};
use crate::workflow::config::workflow::{FlowConfig, FlowStageEntry, WorkflowConfig};

pub mod iterations;
pub mod sessions;
pub mod tasks;

verus! {

/// Deterministic timestamp for fixtures.
pub const FIXTURE_TIMESTAMP: &'static str = "2025-01-24T10:00:00Z";

/// The standard pipeline of the tests: planning (may ask questions), breakdown
/// (produces subtasks that run the `subtask` flow), work, and review
/// (automated, rejections go back to work). Integration failures return to
/// work; the `subtask` flow runs work then review.
pub fn test_default_workflow() -> (r: WorkflowConfig)
    ensures
        r.version == 1,
        r.stages@.len() == 4,
        r.stages@[0].name@ == "planning"@ && r.stages@[0].artifact@ == "plan"@,
        r.stages@[0].prompt matches Some(p) && p@ == "planner.md"@,
        r.stages@[0].capabilities == (StageCapabilities { ask_questions: true, subtasks: None, approval: None }),
        r.stages@[1].name@ == "breakdown"@ && r.stages@[1].artifact@ == "breakdown"@,
        r.stages@[1].prompt matches Some(p) && p@ == "breakdown.md"@,
        r.stages@[1].capabilities.subtasks matches Some(s) && (s.flow matches Some(f) && f@ == "subtask"@),
        r.stages@[2].name@ == "work"@ && r.stages@[2].artifact@ == "summary"@,
        r.stages@[2].prompt matches Some(p) && p@ == "worker.md"@,
        r.stages@[3].name@ == "review"@ && r.stages@[3].artifact@ == "verdict"@,
        r.stages@[3].prompt matches Some(p) && p@ == "review.md"@,
        r.stages@[3].is_automated,
        r.stages@[3].capabilities.approval matches Some(a) && (a.rejection_stage matches Some(t) && t@ == "work"@),
        r.integration.on_failure@ == "work"@,
        flow_entries(r.flows).len() == 1,
        flow_entries(r.flows)[0].0 == "subtask"@,
        flow_entries(r.flows)[0].1.stages@.len() == 2,
        flow_entries(r.flows)[0].1.stages@[0].stage_name@ == "work"@,
        flow_entries(r.flows)[0].1.stages@[1].stage_name@ == "review"@,
{
    let mut flows = flows_new();
    let subtask_stages = vec![
        FlowStageEntry { stage_name: owned("work"), overrides: None },
        FlowStageEntry { stage_name: owned("review"), overrides: None },
    ];
    let subtask = FlowConfig {
        description: owned("Simplified pipeline for subtasks"),
        icon: None,
        stages: subtask_stages,
    };
    let _ = flows_insert(&mut flows, owned("subtask"), subtask);
    let breakdown_caps = StageCapabilities {
        ask_questions: false,
        subtasks: Some(SubtaskCapabilities { flow: None, completion_stage: None }.with_flow("subtask")),
        approval: None,
    };
    let stages = vec![
        StageConfig::new("planning", "plan").with_prompt("planner.md").with_capabilities(
            StageCapabilities::with_questions(),
        ),
        StageConfig::new("breakdown", "breakdown").with_prompt("breakdown.md").with_capabilities(
            breakdown_caps,
        ),
        StageConfig::new("work", "summary").with_prompt("worker.md"),
        StageConfig::new("review", "verdict").with_prompt("review.md").automated().with_capabilities(
            StageCapabilities::with_approval(Some(owned("work"))),
        ),
    ];
    WorkflowConfig::new(stages).with_flows(flows)
}

} // verus!
