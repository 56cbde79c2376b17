//! Workflow configuration: the ordered stages, named flows (shortened
//! pipelines with per-stage overrides), and integration settings.

use indexmap::IndexMap;
use vstd::prelude::*;

use crate::text::{owned, str_eq};
use crate::workflow::config::flow_map::{
    flow_entries, flow_position, flows_get, flows_get_index, flows_len, flows_new,
};
use crate::workflow::config::stage::{
    clone_tool_entries, display_of, opt_text, prompt_path_of, DisallowedToolEntry, StageCapabilities,
    StageConfig,
};
use crate::workflow::runtime::{clone_opt_string, clone_strings};

verus! {

/// A stage entry of the workflow overview given to agents.
#[derive(Debug, Clone, PartialEq)]
pub struct WorkflowStageEntry {
    pub name: String,
    pub description: String,
    /// The stage being executed.
    pub is_current: bool,
}

/// Complete workflow configuration.
#[derive(Debug, PartialEq)]
pub struct WorkflowConfig {
    /// Schema version.
    pub version: u32,
    /// Stages, in order.
    pub stages: Vec<StageConfig>,
    pub integration: IntegrationConfig,
    /// Named alternate flows, in declaration order.
    pub flows: IndexMap<String, FlowConfig>,
}

/// An alternate flow: a subset of the stages, with optional overrides.
#[derive(Debug, Clone, PartialEq)]
pub struct FlowConfig {
    /// When to use the flow.
    pub description: String,
    /// Icon name for the frontend.
    pub icon: Option<String>,
    /// Stages of the flow, in order.
    pub stages: Vec<FlowStageEntry>,
}

/// A stage of a flow, possibly with overrides.
#[derive(Debug, Clone, PartialEq)]
pub struct FlowStageEntry {
    /// Name of a top-level stage.
    pub stage_name: String,
    pub overrides: Option<FlowStageOverride>,
}

/// Stage fields a flow may override (each replaces, never merges).
#[derive(Debug, Clone, PartialEq)]
pub struct FlowStageOverride {
    pub prompt: Option<String>,
    pub capabilities: Option<StageCapabilities>,
    pub model: Option<String>,
    pub inputs: Option<Vec<String>>,
    /// `Some(empty)` lifts all restrictions; `None` inherits the stage's.
    pub disallowed_tools: Option<Vec<DisallowedToolEntry>>,
}

/// Integration (merge) settings.
#[derive(Debug, Clone, PartialEq)]
pub struct IntegrationConfig {
    /// Stage to return to when integration fails.
    pub on_failure: String,
}

impl IntegrationConfig {
    /// Returns to "work" on failure.
    pub fn default_config() -> (r: IntegrationConfig)
        ensures
            r.on_failure@ == "work"@,
    {
        IntegrationConfig { on_failure: default_on_failure() }
    }
}

impl Default for IntegrationConfig {
    fn default() -> (r: IntegrationConfig)
        ensures
            r.on_failure@ == "work"@,
    {
        IntegrationConfig::default_config()
    }
}

/// Schema version of new configurations.
pub fn default_version() -> (r: u32)
    ensures
        r == 1,
{
    1
}

/// Default integration failure stage.
pub fn default_on_failure() -> (r: String)
    ensures
        r@ == "work"@,
{
    owned("work")
}

// ---------------------------------------------------------------------------
// Spec model
// ---------------------------------------------------------------------------

/// Position of the first stage named `name`.
pub open spec fn stage_position(s: Seq<StageConfig>, name: Seq<char>) -> Option<int> {
    if exists|i: int| 0 <= i < s.len() && s[i].name@ == name {
        Some(choose|i: int| 0 <= i < s.len() && s[i].name@ == name && forall|j: int| 0 <= j < i ==> s[j].name@ != name)
    } else {
        None
    }
}

/// Position of the first flow entry for stage `name`.
pub open spec fn entry_position(e: Seq<FlowStageEntry>, name: Seq<char>) -> Option<int> {
    if exists|i: int| 0 <= i < e.len() && e[i].stage_name@ == name {
        Some(choose|i: int| 0 <= i < e.len() && e[i].stage_name@ == name && forall|j: int| 0 <= j < i ==> e[j].stage_name@ != name)
    } else {
        None
    }
}

pub proof fn lemma_stage_position(s: Seq<StageConfig>, name: Seq<char>, i: int)
    requires
        0 <= i < s.len(),
        s[i].name@ == name,
        forall|j: int| 0 <= j < i ==> s[j].name@ != name,
    ensures
        stage_position(s, name) == Some(i),
{
    let k = choose|k: int| 0 <= k < s.len() && s[k].name@ == name && forall|j: int| 0 <= j < k ==> s[j].name@ != name;
    assert(0 <= k < s.len() && s[k].name@ == name);
    if k < i {
        assert(s[k].name@ != name);
    } else if k > i {
        assert(s[i].name@ != name);
    }
}

pub proof fn lemma_entry_position(e: Seq<FlowStageEntry>, name: Seq<char>, i: int)
    requires
        0 <= i < e.len(),
        e[i].stage_name@ == name,
        forall|j: int| 0 <= j < i ==> e[j].stage_name@ != name,
    ensures
        entry_position(e, name) == Some(i),
{
    let k = choose|k: int| 0 <= k < e.len() && e[k].stage_name@ == name && forall|j: int| 0 <= j < k ==> e[j].stage_name@ != name;
    assert(0 <= k < e.len() && e[k].stage_name@ == name);
    if k < i {
        assert(e[k].stage_name@ != name);
    } else if k > i {
        assert(e[i].stage_name@ != name);
    }
}

impl WorkflowConfig {
    /// The stage named `name`.
    pub open spec fn spec_stage(self, name: Seq<char>) -> Option<StageConfig> {
        match stage_position(self.stages@, name) {
            Some(i) => Some(self.stages@[i]),
            None => None,
        }
    }

    /// The flow named `name`.
    pub open spec fn spec_flow(self, name: Seq<char>) -> Option<FlowConfig> {
        match flow_position(flow_entries(self.flows), name) {
            Some(i) => Some(flow_entries(self.flows)[i].1),
            None => None,
        }
    }

    /// The stage order of a flow (`None`: all stages), as stage names.
    pub open spec fn spec_order(self, flow: Option<Seq<char>>) -> Option<Seq<Seq<char>>> {
        match flow {
            None => Some(self.stages@.map_values(|s: StageConfig| s.name@)),
            Some(f) => match self.spec_flow(f) {
                Some(fc) => Some(fc.stages@.map_values(|e: FlowStageEntry| e.stage_name@)),
                None => None,
            },
        }
    }

    /// The stage following `current` in a flow.
    pub open spec fn spec_next_in_flow(self, current: Seq<char>, flow: Option<Seq<char>>) -> Option<StageConfig> {
        match flow {
            None => match stage_position(self.stages@, current) {
                Some(i) => if i + 1 < self.stages@.len() { Some(self.stages@[i + 1]) } else { None },
                None => None,
            },
            Some(f) => match self.spec_flow(f) {
                Some(fc) => match entry_position(fc.stages@, current) {
                    Some(i) => if i + 1 < fc.stages@.len() {
                        self.spec_stage(fc.stages@[i + 1].stage_name@)
                    } else {
                        None
                    },
                    None => None,
                },
                None => None,
            },
        }
    }

    /// The stage preceding `current` in a flow.
    pub open spec fn spec_previous_in_flow(self, current: Seq<char>, flow: Option<Seq<char>>) -> Option<StageConfig> {
        match flow {
            None => match stage_position(self.stages@, current) {
                Some(i) => if i > 0 { Some(self.stages@[i - 1]) } else { None },
                None => None,
            },
            Some(f) => match self.spec_flow(f) {
                Some(fc) => match entry_position(fc.stages@, current) {
                    Some(i) => if i > 0 { self.spec_stage(fc.stages@[i - 1].stage_name@) } else { None },
                    None => None,
                },
                None => None,
            },
        }
    }

    /// The first stage of a flow.
    pub open spec fn spec_first_in_flow(self, flow: Option<Seq<char>>) -> Option<StageConfig> {
        match flow {
            None => if self.stages@.len() > 0 { Some(self.stages@[0]) } else { None },
            Some(f) => match self.spec_flow(f) {
                Some(fc) => if fc.stages@.len() > 0 { self.spec_stage(fc.stages@[0].stage_name@) } else { None },
                None => None,
            },
        }
    }

    /// The flow's overrides for a stage.
    pub open spec fn spec_override(self, stage: Seq<char>, flow: Option<Seq<char>>) -> Option<FlowStageOverride> {
        match flow {
            None => None,
            Some(f) => match self.spec_flow(f) {
                Some(fc) => match entry_position(fc.stages@, stage) {
                    Some(i) => fc.stages@[i].overrides,
                    None => None,
                },
                None => None,
            },
        }
    }
}

impl WorkflowConfig {
    /// A workflow with the given stages, default integration and no flows.
    pub fn new(stages: Vec<StageConfig>) -> (r: WorkflowConfig)
        ensures
            r.version == 1,
            r.stages == stages,
            r.integration.on_failure@ == "work"@,
            flow_entries(r.flows).len() == 0,
    {
        WorkflowConfig { version: 1, stages, integration: IntegrationConfig::default_config(), flows: flows_new() }
    }

    /// Builder: set the integration settings.
    pub fn with_integration(self, integration: IntegrationConfig) -> (r: WorkflowConfig)
        ensures
            r == (WorkflowConfig { integration, ..self }),
    {
        WorkflowConfig { integration, ..self }
    }

    /// Builder: set the flows.
    pub fn with_flows(self, flows: IndexMap<String, FlowConfig>) -> (r: WorkflowConfig)
        ensures
            r == (WorkflowConfig { flows, ..self }),
    {
        WorkflowConfig { flows, ..self }
    }

    /// The stage named `name`.
    pub fn stage(&self, name: &str) -> (r: Option<&StageConfig>)
        ensures
            match self.spec_stage(name@) {
                Some(s) => r matches Some(x) && *x == s,
                None => r is None,
            },
    {
        match self.stage_index(name) {
            Some(i) => Some(&self.stages[i]),
            None => None,
        }
    }

    /// Position of the stage named `name`.
    pub fn stage_index(&self, name: &str) -> (r: Option<usize>)
        ensures
            match r {
                Some(k) => stage_position(self.stages@, name@) == Some(k as int) && k < self.stages@.len(),
                None => stage_position(self.stages@, name@) is None,
            },
    {
        let mut i: usize = 0;
        while i < self.stages.len()
            invariant
                i <= self.stages.len(),
                forall|j: int| 0 <= j < i ==> self.stages@[j].name@ != name@,
            decreases self.stages.len() - i,
        {
            if str_eq(self.stages[i].name.as_str(), name) {
                proof {
                    lemma_stage_position(self.stages@, name@, i as int);
                }
                return Some(i);
            }
            i = i + 1;
        }
        None
    }

    /// The stage after `current` in the full pipeline.
    pub fn next_stage(&self, current: &str) -> (r: Option<&StageConfig>)
        ensures
            match self.spec_next_in_flow(current@, None) {
                Some(s) => r matches Some(x) && *x == s,
                None => r is None,
            },
    {
        match self.stage_index(current) {
            Some(i) => if self.stages.len() - i > 1 {
                Some(&self.stages[i + 1])
            } else {
                None
            },
            None => None,
        }
    }

    /// The first stage of the full pipeline.
    pub fn first_stage(&self) -> (r: Option<&StageConfig>)
        ensures
            match self.spec_first_in_flow(None) {
                Some(s) => r matches Some(x) && *x == s,
                None => r is None,
            },
    {
        if self.stages.len() > 0 {
            Some(&self.stages[0])
        } else {
            None
        }
    }

    /// All stage names, in order.
    pub fn stage_names(&self) -> (r: Vec<&str>)
        ensures
            r@.len() == self.stages@.len(),
            forall|i: int| 0 <= i < r@.len() ==> (#[trigger] r@[i])@ == self.stages@[i].name@,
    {
        let mut out: Vec<&str> = Vec::new();
        let mut i: usize = 0;
        while i < self.stages.len()
            invariant
                i <= self.stages.len(),
                out@.len() == i,
                forall|k: int| 0 <= k < i ==> (#[trigger] out@[k])@ == self.stages@[k].name@,
            decreases self.stages.len() - i,
        {
            out.push(self.stages[i].name.as_str());
            i = i + 1;
        }
        out
    }

    /// The flow named `name`.
    pub fn flow(&self, name: &str) -> (r: Option<&FlowConfig>)
        ensures
            match self.spec_flow(name@) {
                Some(f) => r matches Some(x) && *x == f,
                None => r is None,
            },
    {
        flows_get(&self.flows, name)
    }

    /// Looks up a flow when one is named.
    fn flow_of(&self, flow: Option<&str>) -> (r: Option<&FlowConfig>)
        ensures
            match flow {
                None => r is None,
                Some(f) => match self.spec_flow(f@) {
                    Some(fc) => r matches Some(x) && *x == fc,
                    None => r is None,
                },
            },
    {
        match flow {
            None => None,
            Some(f) => self.flow(f),
        }
    }

    /// The first stage of a flow (the full pipeline when `flow` is `None`).
    pub fn first_stage_in_flow(&self, flow: Option<&str>) -> (r: Option<&StageConfig>)
        ensures
            match self.spec_first_in_flow(opt_str(flow)) {
                Some(s) => r matches Some(x) && *x == s,
                None => r is None,
            },
    {
        match flow {
            None => self.first_stage(),
            Some(name) => match self.flow(name) {
                Some(fc) => if fc.stages.len() > 0 {
                    self.stage(fc.stages[0].stage_name.as_str())
                } else {
                    None
                },
                None => None,
            },
        }
    }

    /// The stage after `current` in a flow.
    pub fn next_stage_in_flow(&self, current: &str, flow: Option<&str>) -> (r: Option<&StageConfig>)
        ensures
            match self.spec_next_in_flow(current@, opt_str(flow)) {
                Some(s) => r matches Some(x) && *x == s,
                None => r is None,
            },
    {
        match flow {
            None => self.next_stage(current),
            Some(name) => match self.flow(name) {
                Some(fc) => match entry_index(&fc.stages, current) {
                    Some(i) => if fc.stages.len() - i > 1 {
                        self.stage(fc.stages[i + 1].stage_name.as_str())
                    } else {
                        None
                    },
                    None => None,
                },
                None => None,
            },
        }
    }

    /// The stage before `current` in a flow.
    pub fn previous_stage_in_flow(&self, current: &str, flow: Option<&str>) -> (r: Option<&StageConfig>)
        ensures
            match self.spec_previous_in_flow(current@, opt_str(flow)) {
                Some(s) => r matches Some(x) && *x == s,
                None => r is None,
            },
    {
        match flow {
            None => match self.stage_index(current) {
                Some(i) => if i == 0 {
                    None
                } else {
                    Some(&self.stages[i - 1])
                },
                None => None,
            },
            Some(name) => match self.flow(name) {
                Some(fc) => match entry_index(&fc.stages, current) {
                    Some(i) => if i == 0 {
                        None
                    } else {
                        self.stage(fc.stages[i - 1].stage_name.as_str())
                    },
                    None => None,
                },
                None => None,
            },
        }
    }

    /// The overrides a flow sets for a stage.
    fn flow_override(&self, stage_name: &str, flow: Option<&str>) -> (r: Option<&FlowStageOverride>)
        ensures
            match self.spec_override(stage_name@, opt_str(flow)) {
                Some(o) => r matches Some(x) && *x == o,
                None => r is None,
            },
    {
        let fc = match self.flow_of(flow) {
            Some(fc) => fc,
            None => return None,
        };
        match entry_index(&fc.stages, stage_name) {
            Some(i) => match &fc.stages[i].overrides {
                Some(o) => Some(o),
                None => None,
            },
            None => None,
        }
    }

    /// Prompt path of a stage in a flow: the flow's override, else the stage's.
    pub fn effective_prompt_path(&self, stage_name: &str, flow: Option<&str>) -> (r: Option<String>)
        ensures
            opt_text(r) == match self.spec_override(stage_name@, opt_str(flow)) {
                Some(o) if o.prompt is Some => Some(o.prompt.unwrap()@),
                _ => match self.spec_stage(stage_name@) {
                    Some(s) => prompt_path_of(s),
                    None => None,
                },
            },
    {
        if let Some(o) = self.flow_override(stage_name, flow) {
            if let Some(p) = &o.prompt {
                return Some(p.clone());
            }
        }
        match self.stage(stage_name) {
            Some(s) => s.prompt_path(),
            None => None,
        }
    }

    /// Capabilities of a stage in a flow (an override replaces them whole).
    pub fn effective_capabilities(&self, stage_name: &str, flow: Option<&str>) -> (r: Option<StageCapabilities>)
        ensures
            r == match self.spec_override(stage_name@, opt_str(flow)) {
                Some(o) if o.capabilities is Some => o.capabilities,
                _ => match self.spec_stage(stage_name@) {
                    Some(s) => Some(s.capabilities),
                    None => None,
                },
            },
    {
        if let Some(o) = self.flow_override(stage_name, flow) {
            if let Some(c) = &o.capabilities {
                return Some(c.duplicate());
            }
        }
        match self.stage(stage_name) {
            Some(s) => Some(s.capabilities.duplicate()),
            None => None,
        }
    }

    /// Model of a stage in a flow; `None` means the provider default.
    pub fn effective_model(&self, stage_name: &str, flow: Option<&str>) -> (r: Option<String>)
        ensures
            r == match self.spec_override(stage_name@, opt_str(flow)) {
                Some(o) if o.model is Some => o.model,
                _ => match self.spec_stage(stage_name@) {
                    Some(s) => s.model,
                    None => None,
                },
            },
    {
        if let Some(o) = self.flow_override(stage_name, flow) {
            if let Some(m) = &o.model {
                return Some(m.clone());
            }
        }
        match self.stage(stage_name) {
            Some(s) => clone_opt_string(&s.model),
            None => None,
        }
    }

    /// Inputs of a stage in a flow (an override replaces them whole).
    pub fn effective_inputs(&self, stage_name: &str, flow: Option<&str>) -> (r: Option<Vec<String>>)
        ensures
            opt_names(r) == match self.spec_override(stage_name@, opt_str(flow)) {
                Some(o) if o.inputs is Some => Some(o.inputs.unwrap()@),
                _ => match self.spec_stage(stage_name@) {
                    Some(s) => Some(s.inputs@),
                    None => None,
                },
            },
    {
        if let Some(o) = self.flow_override(stage_name, flow) {
            if let Some(i) = &o.inputs {
                return Some(clone_strings(i));
            }
        }
        match self.stage(stage_name) {
            Some(s) => Some(clone_strings(&s.inputs)),
            None => None,
        }
    }

    /// Tool restrictions of a stage in a flow; empty when none apply.
    pub fn effective_disallowed_tools(&self, stage_name: &str, flow: Option<&str>) -> (r: Vec<DisallowedToolEntry>)
        ensures
            r@ == match self.spec_override(stage_name@, opt_str(flow)) {
                Some(o) if o.disallowed_tools is Some => o.disallowed_tools.unwrap()@,
                _ => match self.spec_stage(stage_name@) {
                    Some(s) => s.disallowed_tools@,
                    None => Seq::empty(),
                },
            },
    {
        if let Some(o) = self.flow_override(stage_name, flow) {
            if let Some(t) = &o.disallowed_tools {
                return clone_tool_entries(t);
            }
        }
        match self.stage(stage_name) {
            Some(s) => clone_tool_entries(&s.disallowed_tools),
            None => Vec::new(),
        }
    }

    /// Whether a stage belongs to a flow.
    pub fn stage_in_flow(&self, stage_name: &str, flow: Option<&str>) -> (r: bool)
        ensures
            r == match opt_str(flow) {
                None => self.spec_stage(stage_name@) is Some,
                Some(f) => match self.spec_flow(f) {
                    Some(fc) => entry_position(fc.stages@, stage_name@) is Some,
                    None => false,
                },
            },
    {
        match flow {
            None => self.stage(stage_name).is_some(),
            Some(name) => match self.flow(name) {
                Some(fc) => entry_index(&fc.stages, stage_name).is_some(),
                None => false,
            },
        }
    }

    /// Models of the agent (non-script) stages of a flow, in flow order.
    pub fn agent_model_specs(&self, flow: Option<&str>) -> (r: Vec<Option<String>>)
        ensures
            r@ == agent_models_of(*self, opt_str(flow)),
    {
        match flow {
            None => self.pipeline_agent_models(),
            Some(name) => match self.flow(name) {
                Some(fc) => self.flow_agent_model_list(fc),
                None => Vec::new(),
            },
        }
    }

    /// Models of the agent stages of the full pipeline.
    fn pipeline_agent_models(&self) -> (r: Vec<Option<String>>)
        ensures
            r@ == default_agent_models(self.stages@),
    {
        let mut out: Vec<Option<String>> = Vec::new();
        let mut i: usize = 0;
        while i < self.stages.len()
            invariant
                i <= self.stages.len(),
                out@ == default_agent_models(self.stages@.take(i as int)),
            decreases self.stages.len() - i,
        {
            let ghost t = self.stages@.take(i + 1);
            assert(t.drop_last() =~= self.stages@.take(i as int));
            assert(t.last() == self.stages@[i as int]);
            let s = &self.stages[i];
            if s.script.is_none() {
                out.push(clone_opt_string(&s.model));
            }
            i = i + 1;
        }
        assert(self.stages@.take(self.stages.len() as int) =~= self.stages@);
        out
    }

    /// Models of the agent stages named by a flow's entries.
    fn flow_agent_model_list(&self, fc: &FlowConfig) -> (r: Vec<Option<String>>)
        ensures
            r@ == flow_agent_models(*self, fc.stages@),
    {
        let mut out: Vec<Option<String>> = Vec::new();
        let mut i: usize = 0;
        while i < fc.stages.len()
            invariant
                i <= fc.stages.len(),
                out@ == flow_agent_models(*self, fc.stages@.take(i as int)),
            decreases fc.stages.len() - i,
        {
            let ghost t = fc.stages@.take(i + 1);
            assert(t.drop_last() =~= fc.stages@.take(i as int));
            assert(t.last() == fc.stages@[i as int]);
            let entry = &fc.stages[i];
            if let Some(stage) = self.stage(entry.stage_name.as_str()) {
                if stage.script.is_none() {
                    let over = match &entry.overrides {
                        Some(o) => clone_opt_string(&o.model),
                        None => None,
                    };
                    let model = match over {
                        Some(m) => Some(m),
                        None => clone_opt_string(&stage.model),
                    };
                    out.push(model);
                }
            }
            i = i + 1;
        }
        assert(fc.stages@.take(fc.stages.len() as int) =~= fc.stages@);
        out
    }

    /// Overview entries of the stages of a flow, marking the current stage.
    pub fn workflow_stage_entries(&self, current_stage: &str, flow: Option<&str>) -> (r: Vec<WorkflowStageEntry>)
        ensures
            r@.map_values(|e: WorkflowStageEntry| entry_view(e)) == stage_entries_of(*self, current_stage@, opt_str(flow)),
    {
        let mut out: Vec<WorkflowStageEntry> = Vec::new();
        match flow {
            None => {
                let mut i: usize = 0;
                while i < self.stages.len()
                    invariant
                        i <= self.stages.len(),
                        out@.map_values(|e: WorkflowStageEntry| entry_view(e))
                            == default_entries(self.stages@.take(i as int), current_stage@),
                    decreases self.stages.len() - i,
                {
                    let ghost t = self.stages@.take(i + 1);
                    assert(t.drop_last() =~= self.stages@.take(i as int));
                    assert(t.last() == self.stages@[i as int]);
                    let ghost before = out@.map_values(|e: WorkflowStageEntry| entry_view(e));
                    out.push(overview_entry(&self.stages[i], current_stage));
                    assert(out@.map_values(|e: WorkflowStageEntry| entry_view(e)) =~= before.push(
                        entry_view(out@.last()),
                    ));
                    i = i + 1;
                }
                assert(self.stages@.take(self.stages.len() as int) =~= self.stages@);
                out
            },
            Some(name) => {
                let fc = match self.flow(name) {
                    Some(fc) => fc,
                    None => return out,
                };
                let mut i: usize = 0;
                while i < fc.stages.len()
                    invariant
                        i <= fc.stages.len(),
                        out@.map_values(|e: WorkflowStageEntry| entry_view(e))
                            == flow_entries_overview(*self, fc.stages@.take(i as int), current_stage@),
                    decreases fc.stages.len() - i,
                {
                    let ghost t = fc.stages@.take(i + 1);
                    assert(t.drop_last() =~= fc.stages@.take(i as int));
                    assert(t.last() == fc.stages@[i as int]);
                    let ghost before = out@.map_values(|e: WorkflowStageEntry| entry_view(e));
                    if let Some(stage) = self.stage(fc.stages[i].stage_name.as_str()) {
                        out.push(overview_entry(stage, current_stage));
                        assert(out@.map_values(|e: WorkflowStageEntry| entry_view(e)) =~= before.push(
                            entry_view(out@.last()),
                        ));
                    }
                    i = i + 1;
                }
                assert(fc.stages@.take(fc.stages.len() as int) =~= fc.stages@);
                out
            },
        }
    }
}

/// An optional string slice as text.
pub open spec fn opt_str(o: Option<&str>) -> Option<Seq<char>> {
    match o {
        Some(s) => Some(s@),
        None => None,
    }
}

pub open spec fn opt_names(o: Option<Vec<String>>) -> Option<Seq<String>> {
    match o {
        Some(v) => Some(v@),
        None => None,
    }
}

/// Position of the first entry of `entries` for stage `name`.
pub fn entry_index(entries: &Vec<FlowStageEntry>, name: &str) -> (r: Option<usize>)
    ensures
        match r {
            Some(k) => entry_position(entries@, name@) == Some(k as int) && k < entries@.len(),
            None => entry_position(entries@, name@) is None,
        },
{
    let mut i: usize = 0;
    while i < entries.len()
        invariant
            i <= entries.len(),
            forall|j: int| 0 <= j < i ==> entries@[j].stage_name@ != name@,
        decreases entries.len() - i,
    {
        if str_eq(entries[i].stage_name.as_str(), name) {
            proof {
                lemma_entry_position(entries@, name@, i as int);
            }
            return Some(i);
        }
        i = i + 1;
    }
    None
}

/// Models of the agent stages among `s`.
pub open spec fn default_agent_models(s: Seq<StageConfig>) -> Seq<Option<String>>
    decreases s.len(),
{
    if s.len() == 0 {
        Seq::empty()
    } else if s.last().script is None {
        default_agent_models(s.drop_last()).push(s.last().model)
    } else {
        default_agent_models(s.drop_last())
    }
}

/// Models of the agent stages named by flow entries, overrides first.
pub open spec fn flow_agent_models(w: WorkflowConfig, e: Seq<FlowStageEntry>) -> Seq<Option<String>>
    decreases e.len(),
{
    if e.len() == 0 {
        Seq::empty()
    } else {
        let rest = flow_agent_models(w, e.drop_last());
        match w.spec_stage(e.last().stage_name@) {
            Some(s) => if s.script is None {
                let over = match e.last().overrides {
                    Some(o) => o.model,
                    None => None,
                };
                rest.push(if over is Some { over } else { s.model })
            } else {
                rest
            },
            None => rest,
        }
    }
}

pub open spec fn agent_models_of(w: WorkflowConfig, flow: Option<Seq<char>>) -> Seq<Option<String>> {
    match flow {
        None => default_agent_models(w.stages@),
        Some(f) => match w.spec_flow(f) {
            Some(fc) => flow_agent_models(w, fc.stages@),
            None => Seq::empty(),
        },
    }
}

/// What an overview entry holds.
pub open spec fn entry_view(e: WorkflowStageEntry) -> (Seq<char>, Seq<char>, bool) {
    (e.name@, e.description@, e.is_current)
}

/// The overview entry of a stage.
pub open spec fn overview_of(s: StageConfig, current: Seq<char>) -> (Seq<char>, Seq<char>, bool) {
    (s.name@, match s.description { Some(d) => d@, None => display_of(s) }, s.name@ == current)
}

pub open spec fn default_entries(s: Seq<StageConfig>, current: Seq<char>) -> Seq<(Seq<char>, Seq<char>, bool)> {
    Seq::new(s.len(), |i: int| overview_of(s[i], current))
}

pub open spec fn flow_entries_overview(w: WorkflowConfig, e: Seq<FlowStageEntry>, current: Seq<char>) -> Seq<(Seq<char>, Seq<char>, bool)>
    decreases e.len(),
{
    if e.len() == 0 {
        Seq::empty()
    } else {
        let rest = flow_entries_overview(w, e.drop_last(), current);
        match w.spec_stage(e.last().stage_name@) {
            Some(s) => rest.push(overview_of(s, current)),
            None => rest,
        }
    }
}

pub open spec fn stage_entries_of(w: WorkflowConfig, current: Seq<char>, flow: Option<Seq<char>>) -> Seq<(Seq<char>, Seq<char>, bool)> {
    match flow {
        None => default_entries(w.stages@, current),
        Some(f) => match w.spec_flow(f) {
            Some(fc) => flow_entries_overview(w, fc.stages@, current),
            None => Seq::empty(),
        },
    }
}

/// The overview entry of one stage.
fn overview_entry(s: &StageConfig, current: &str) -> (r: WorkflowStageEntry)
    ensures
        entry_view(r) == overview_of(*s, current@),
{
    let description = match &s.description {
        Some(d) => d.clone(),
        None => s.display(),
    };
    WorkflowStageEntry { name: s.name.clone(), description, is_current: str_eq(s.name.as_str(), current) }
}

proof fn lemma_stage_min_witness(s: Seq<StageConfig>, name: Seq<char>, k: int)
    requires
        0 <= k < s.len(),
        s[k].name@ == name,
    ensures
        exists|i: int| 0 <= i < s.len() && s[i].name@ == name && forall|j: int| 0 <= j < i ==> s[j].name@ != name,
    decreases k,
{
    if exists|j: int| 0 <= j < k && s[j].name@ == name {
        let j = choose|j: int| 0 <= j < k && s[j].name@ == name;
        lemma_stage_min_witness(s, name, j);
    }
}

/// What `stage_position` finds is named `name`, and no stage before it is.
pub proof fn lemma_stage_position_props(s: Seq<StageConfig>, name: Seq<char>)
    ensures
        match stage_position(s, name) {
            Some(i) => 0 <= i < s.len() && s[i].name@ == name && forall|j: int| 0 <= j < i ==> s[j].name@ != name,
            None => forall|j: int| 0 <= j < s.len() ==> s[j].name@ != name,
        },
{
    if exists|i: int| 0 <= i < s.len() && s[i].name@ == name {
        let w = choose|i: int| 0 <= i < s.len() && s[i].name@ == name;
        lemma_stage_min_witness(s, name, w);
    }
}

proof fn lemma_entry_min_witness(e: Seq<FlowStageEntry>, name: Seq<char>, k: int)
    requires
        0 <= k < e.len(),
        e[k].stage_name@ == name,
    ensures
        exists|i: int| 0 <= i < e.len() && e[i].stage_name@ == name && forall|j: int| 0 <= j < i ==> e[j].stage_name@ != name,
    decreases k,
{
    if exists|j: int| 0 <= j < k && e[j].stage_name@ == name {
        let j = choose|j: int| 0 <= j < k && e[j].stage_name@ == name;
        lemma_entry_min_witness(e, name, j);
    }
}

/// What `entry_position` finds names `name`, and no entry before it does.
pub proof fn lemma_entry_position_props(e: Seq<FlowStageEntry>, name: Seq<char>)
    ensures
        match entry_position(e, name) {
            Some(i) => 0 <= i < e.len() && e[i].stage_name@ == name && forall|j: int| 0 <= j < i ==> e[j].stage_name@ != name,
            None => forall|j: int| 0 <= j < e.len() ==> e[j].stage_name@ != name,
        },
{
    if exists|i: int| 0 <= i < e.len() && e[i].stage_name@ == name {
        let w = choose|i: int| 0 <= i < e.len() && e[i].stage_name@ == name;
        lemma_entry_min_witness(e, name, w);
    }
}

/// No two stages share a name.
pub open spec fn distinct_stage_names(s: Seq<StageConfig>) -> bool {
    forall|i: int, j: int| 0 <= i < j < s.len() ==> (#[trigger] s[i]).name@ != (#[trigger] s[j]).name@
}

/// No stage appears twice in a flow.
pub open spec fn distinct_entries(e: Seq<FlowStageEntry>) -> bool {
    forall|i: int, j: int| 0 <= i < j < e.len() ==> (#[trigger] e[i]).stage_name@ != (#[trigger] e[j]).stage_name@
}

/// In a flow whose stages appear once each (and, for a named flow, whose
/// stage names are unique in the workflow), stepping back from the stage
/// after `current` returns to `current`.
pub proof fn law_previous_undoes_next(w: WorkflowConfig, current: Seq<char>, flow: Option<Seq<char>>)
    requires
        distinct_stage_names(w.stages@),
        flow matches Some(f) ==> w.spec_flow(f) matches Some(fc) && distinct_entries(fc.stages@),
        w.spec_next_in_flow(current, flow) is Some,
    ensures
        w.spec_previous_in_flow(w.spec_next_in_flow(current, flow).unwrap().name@, flow) == w.spec_stage(current),
{
    let s = w.stages@;
    match flow {
        None => {
            lemma_stage_position_props(s, current);
            let i = stage_position(s, current).unwrap();
            let t = s[i + 1];
            assert forall|j: int| 0 <= j < i + 1 implies s[j].name@ != t.name@ by {
                assert(s[j].name@ != s[i + 1].name@);
            }
            lemma_stage_position(s, t.name@, i + 1);
        },
        Some(f) => {
            let fc = w.spec_flow(f).unwrap();
            let e = fc.stages@;
            lemma_entry_position_props(e, current);
            let i = entry_position(e, current).unwrap();
            let next_name = e[i + 1].stage_name@;
            lemma_stage_position_props(s, next_name);
            let t = w.spec_stage(next_name).unwrap();
            assert(t.name@ == next_name);
            assert forall|j: int| 0 <= j < i + 1 implies e[j].stage_name@ != next_name by {
                assert(e[j].stage_name@ != e[i + 1].stage_name@);
            }
            lemma_entry_position(e, next_name, i + 1);
        },
    }
}

} // verus!
