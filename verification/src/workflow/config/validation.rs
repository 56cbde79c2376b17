//! Validation of a workflow configuration: every mistake found, in a fixed
//! order, each explained by one message.

use vstd::prelude::*;

use crate::text::{is_blank, str_eq, trim};
use crate::workflow::config::flow_map::{
    flow_entries, flow_position, flows_contains_key, flows_get_index, flows_len,
};
use crate::workflow::config::messages::{
    debug_list, debug_text_list, duplicate_artifact_message, duplicate_artifact_text,
    duplicate_stage_message, duplicate_stage_text, empty_flow_message, empty_flow_text,
    empty_model_message, empty_model_text, empty_pattern_message, empty_pattern_text,
    empty_workflow_message, empty_workflow_text, flow_empty_model_message, flow_empty_model_text,
    flow_empty_pattern_message, flow_empty_pattern_text, flow_override_rejection_message,
    flow_override_rejection_text, flow_script_failure_message, flow_script_failure_text,
    flow_script_model_message, flow_script_model_text, flow_script_override_message,
    flow_script_override_text, flow_stage_rejection_message, flow_stage_rejection_text,
    flow_unknown_input_message, flow_unknown_input_text, flow_unknown_stage_message,
    flow_unknown_stage_text, flow_unknown_subtask_flow_message, flow_unknown_subtask_flow_text,
    forward_input_message, forward_input_text, prompt_and_script_message, prompt_and_script_text,
    reserved_flow_message, reserved_flow_text, script_model_message, script_model_text,
    script_questions_message, script_questions_text, script_restart_message, script_restart_text,
    script_subtasks_message, script_subtasks_text, script_tools_message, script_tools_text,
    str_views, unknown_completion_message, unknown_completion_text, unknown_input_message,
    unknown_input_text, unknown_integration_message, unknown_integration_text,
    unknown_rejection_message, unknown_rejection_text, unknown_script_failure_message,
    unknown_script_failure_text, unknown_subtask_flow_message, unknown_subtask_flow_text,
};
use crate::workflow::config::stage::{DisallowedToolEntry, StageConfig};
use crate::workflow::config::workflow::{
    entry_index, entry_position, FlowConfig, FlowStageEntry, WorkflowConfig,
};

verus! {

// ---------------------------------------------------------------------------
// Vocabulary
// ---------------------------------------------------------------------------

/// The texts of a list of messages.
pub open spec fn message_texts(v: Seq<String>) -> Seq<Seq<char>> {
    Seq::new(v.len(), |i: int| v[i]@)
}

/// The stage names, in order.
pub open spec fn stage_names(s: Seq<StageConfig>) -> Seq<Seq<char>> {
    Seq::new(s.len(), |i: int| s[i].name@)
}

/// The artifact names, in stage order.
pub open spec fn artifact_names(s: Seq<StageConfig>) -> Seq<Seq<char>> {
    Seq::new(s.len(), |i: int| s[i].artifact@)
}

/// One of the first `n` stages is named `x`.
pub open spec fn named_within(s: Seq<StageConfig>, n: int, x: Seq<char>) -> bool {
    exists|j: int| 0 <= j < n && j < s.len() && (#[trigger] s[j]).name@ == x
}

/// One of the first `n` stages produces artifact `x`.
pub open spec fn produced_within(s: Seq<StageConfig>, n: int, x: Seq<char>) -> bool {
    exists|j: int| 0 <= j < n && j < s.len() && (#[trigger] s[j]).artifact@ == x
}

/// Position of the first stage that produces artifact `a`.
pub open spec fn producer_position(s: Seq<StageConfig>, a: Seq<char>) -> Option<int> {
    if produced_within(s, s.len() as int, a) {
        Some(choose|i: int| 0 <= i < s.len() && s[i].artifact@ == a && !produced_within(s, i, a))
    } else {
        None
    }
}

/// Name of the stage that produces artifact `a` ("unknown" if none does).
pub open spec fn producer_name(s: Seq<StageConfig>, a: Seq<char>) -> Seq<char> {
    match producer_position(s, a) {
        Some(i) => s[i].name@,
        None => "unknown"@,
    }
}

/// The stage named `name` runs a script.
pub open spec fn is_script_named(w: WorkflowConfig, name: Seq<char>) -> bool {
    match w.spec_stage(name) {
        Some(s) => s.script is Some,
        None => false,
    }
}

/// A flow of `w` is named `name`.
pub open spec fn has_flow(w: WorkflowConfig, name: Seq<char>) -> bool {
    flow_position(flow_entries(w.flows), name) is Some
}

/// A flow lists a stage named `name`.
pub open spec fn in_flow(fc: FlowConfig, name: Seq<char>) -> bool {
    entry_position(fc.stages@, name) is Some
}

/// One message when `bad` holds, none otherwise.
pub open spec fn when(bad: bool, text: Seq<char>) -> Seq<Seq<char>> {
    if bad {
        seq![text]
    } else {
        Seq::empty()
    }
}

// ---------------------------------------------------------------------------
// What is checked, stage by stage
// ---------------------------------------------------------------------------

/// The checks that run over the stages, one pass each.
#[derive(Clone, Copy, PartialEq, Eq, Structural)]
pub enum StageCheck {
    DuplicateNames,
    DuplicateArtifacts,
    InputReferences,
    InputOrder,
    RejectionTargets,
    ScriptStages,
    SubtaskReferences,
    Models,
    ToolRestrictions,
}

/// Inputs of `st` (the first `m`) that no stage produces.
pub open spec fn unknown_input_errors(s: Seq<StageConfig>, st: StageConfig, available: Seq<char>, m: nat) -> Seq<Seq<char>>
    decreases m,
{
    if m == 0 {
        Seq::empty()
    } else {
        let input = st.inputs@[m - 1]@;
        unknown_input_errors(s, st, available, (m - 1) as nat) + when(
            !produced_within(s, s.len() as int, input),
            unknown_input_text(st.name@, input, available),
        )
    }
}

/// Inputs of stage `k` (the first `m`) produced only by a later stage.
pub open spec fn forward_input_errors(s: Seq<StageConfig>, k: int, m: nat) -> Seq<Seq<char>>
    decreases m,
{
    if m == 0 {
        Seq::empty()
    } else {
        let input = s[k].inputs@[m - 1]@;
        forward_input_errors(s, k, (m - 1) as nat) + when(
            !produced_within(s, k, input) && produced_within(s, s.len() as int, input),
            forward_input_text(s[k].name@, input, producer_name(s, input)),
        )
    }
}

/// An approval that sends rejected work to a stage that does not exist.
pub open spec fn rejection_target_errors(s: Seq<StageConfig>, st: StageConfig, valid: Seq<char>) -> Seq<Seq<char>> {
    match st.capabilities.approval {
        Some(a) => match a.rejection_stage {
            Some(t) => when(!named_within(s, s.len() as int, t@), unknown_rejection_text(st.name@, t@, valid)),
            None => Seq::empty(),
        },
        None => Seq::empty(),
    }
}

/// Mistakes in a script stage (or a stage that is both agent and script).
pub open spec fn script_stage_errors(s: Seq<StageConfig>, st: StageConfig, valid: Seq<char>) -> Seq<Seq<char>> {
    let both = when(st.prompt is Some && st.script is Some, prompt_and_script_text(st.name@));
    match st.script {
        Some(sc) => {
            let failure = match sc.on_failure {
                Some(f) => when(
                    !named_within(s, s.len() as int, f@),
                    unknown_script_failure_text(st.name@, f@, valid),
                ),
                None => Seq::empty(),
            };
            both + failure + when(st.capabilities.ask_questions, script_questions_text(st.name@)) + when(
                st.capabilities.subtasks is Some,
                script_subtasks_text(st.name@),
            )
        },
        None => both,
    }
}

/// Subtask settings of a stage that name a missing flow or stage.
pub open spec fn subtask_reference_errors(w: WorkflowConfig, st: StageConfig) -> Seq<Seq<char>> {
    match st.capabilities.subtasks {
        Some(sc) => {
            let flow = match sc.flow {
                Some(f) => when(!has_flow(w, f@), unknown_subtask_flow_text(st.name@, f@)),
                None => Seq::empty(),
            };
            let completion = match sc.completion_stage {
                Some(t) => when(
                    !named_within(w.stages@, w.stages@.len() as int, t@),
                    unknown_completion_text(st.name@, t@),
                ),
                None => Seq::empty(),
            };
            flow + completion
        },
        None => Seq::empty(),
    }
}

/// Model settings of a stage that cannot take effect.
pub open spec fn model_errors(st: StageConfig) -> Seq<Seq<char>> {
    let blank = match st.model {
        Some(m) => when(trim(m@).len() == 0, empty_model_text(st.name@)),
        None => Seq::empty(),
    };
    when(st.model is Some && st.script is Some, script_model_text(st.name@)) + when(
        st.restart_on_reentry && st.script is Some,
        script_restart_text(st.name@),
    ) + blank
}

/// Tool restrictions (the first `m`) whose pattern is blank.
pub open spec fn blank_pattern_errors(stage: Seq<char>, tools: Seq<DisallowedToolEntry>, m: nat) -> Seq<Seq<char>>
    decreases m,
{
    if m == 0 {
        Seq::empty()
    } else {
        blank_pattern_errors(stage, tools, (m - 1) as nat) + when(
            trim(tools[m - 1].pattern@).len() == 0,
            empty_pattern_text(stage, (m - 1) as nat),
        )
    }
}

/// Tool restrictions of a stage that cannot take effect or are blank.
pub open spec fn tool_errors(st: StageConfig) -> Seq<Seq<char>> {
    when(st.disallowed_tools@.len() > 0 && st.script is Some, script_tools_text(st.name@))
        + blank_pattern_errors(st.name@, st.disallowed_tools@, st.disallowed_tools@.len())
}

/// What one check finds in stage `k`.
pub open spec fn stage_errors(w: WorkflowConfig, check: StageCheck, valid: Seq<char>, available: Seq<char>, k: int) -> Seq<Seq<char>> {
    let s = w.stages@;
    let st = s[k];
    match check {
        StageCheck::DuplicateNames => when(named_within(s, k, st.name@), duplicate_stage_text(st.name@)),
        StageCheck::DuplicateArtifacts => when(
            produced_within(s, k, st.artifact@),
            duplicate_artifact_text(st.artifact@),
        ),
        StageCheck::InputReferences => unknown_input_errors(s, st, available, st.inputs@.len()),
        StageCheck::InputOrder => forward_input_errors(s, k, st.inputs@.len()),
        StageCheck::RejectionTargets => rejection_target_errors(s, st, valid),
        StageCheck::ScriptStages => script_stage_errors(s, st, valid),
        StageCheck::SubtaskReferences => subtask_reference_errors(w, st),
        StageCheck::Models => model_errors(st),
        StageCheck::ToolRestrictions => tool_errors(st),
    }
}

/// What one check finds in the first `n` stages, in stage order.
pub open spec fn stage_check_errors(w: WorkflowConfig, check: StageCheck, valid: Seq<char>, available: Seq<char>, n: nat) -> Seq<Seq<char>>
    decreases n,
{
    if n == 0 {
        Seq::empty()
    } else {
        stage_check_errors(w, check, valid, available, (n - 1) as nat) + stage_errors(
            w,
            check,
            valid,
            available,
            n - 1,
        )
    }
}

/// An integration failure stage that does not exist.
pub open spec fn integration_errors(w: WorkflowConfig, valid: Seq<char>) -> Seq<Seq<char>> {
    when(
        !named_within(w.stages@, w.stages@.len() as int, w.integration.on_failure@),
        unknown_integration_text(w.integration.on_failure@, valid),
    )
}

// ---------------------------------------------------------------------------
// What is checked, flow by flow
// ---------------------------------------------------------------------------

/// The checks that run over the flows, one pass each.
#[derive(Clone, Copy, PartialEq, Eq, Structural)]
pub enum FlowCheck {
    Structure,
    SubtaskReferences,
    Models,
    ToolRestrictions,
}

/// Override inputs (the first `m`) that no stage produces.
pub open spec fn override_input_errors(w: WorkflowConfig, flow: Seq<char>, stage: Seq<char>, inputs: Seq<String>, m: nat) -> Seq<Seq<char>>
    decreases m,
{
    if m == 0 {
        Seq::empty()
    } else {
        override_input_errors(w, flow, stage, inputs, (m - 1) as nat) + when(
            !produced_within(w.stages@, w.stages@.len() as int, inputs[m - 1]@),
            flow_unknown_input_text(flow, stage, inputs[m - 1]@),
        )
    }
}

/// Mistakes in the overrides of a flow entry.
pub open spec fn override_errors(w: WorkflowConfig, flow: Seq<char>, fc: FlowConfig, e: FlowStageEntry) -> Seq<Seq<char>> {
    match e.overrides {
        None => Seq::empty(),
        Some(o) => {
            let script = when(is_script_named(w, e.stage_name@), flow_script_override_text(flow, e.stage_name@));
            let inputs = match o.inputs {
                Some(ins) => override_input_errors(w, flow, e.stage_name@, ins@, ins@.len()),
                None => Seq::empty(),
            };
            let rejection = match o.capabilities {
                Some(c) => match c.approval {
                    Some(a) => match a.rejection_stage {
                        Some(t) => when(!in_flow(fc, t@), flow_override_rejection_text(flow, e.stage_name@, t@)),
                        None => Seq::empty(),
                    },
                    None => Seq::empty(),
                },
                None => Seq::empty(),
            };
            script + inputs + rejection
        },
    }
}

/// A stage's own rejection target that the flow leaves out.
pub open spec fn inherited_rejection_errors(w: WorkflowConfig, flow: Seq<char>, fc: FlowConfig, e: FlowStageEntry) -> Seq<Seq<char>> {
    let inherits = match e.overrides {
        Some(o) => o.capabilities is None,
        None => true,
    };
    if inherits {
        match w.spec_stage(e.stage_name@) {
            Some(g) => match g.capabilities.approval {
                Some(a) => match a.rejection_stage {
                    Some(t) => when(!in_flow(fc, t@), flow_stage_rejection_text(flow, e.stage_name@, t@)),
                    None => Seq::empty(),
                },
                None => Seq::empty(),
            },
            None => Seq::empty(),
        }
    } else {
        Seq::empty()
    }
}

/// A script stage's failure target that the flow leaves out.
pub open spec fn inherited_failure_errors(w: WorkflowConfig, flow: Seq<char>, fc: FlowConfig, e: FlowStageEntry) -> Seq<Seq<char>> {
    match w.spec_stage(e.stage_name@) {
        Some(g) => match g.script {
            Some(sc) => match sc.on_failure {
                Some(f) => when(!in_flow(fc, f@), flow_script_failure_text(flow, e.stage_name@, f@)),
                None => Seq::empty(),
            },
            None => Seq::empty(),
        },
        None => Seq::empty(),
    }
}

/// Structural mistakes in one flow entry.
pub open spec fn structure_entry_errors(w: WorkflowConfig, flow: Seq<char>, fc: FlowConfig, e: FlowStageEntry) -> Seq<Seq<char>> {
    if !named_within(w.stages@, w.stages@.len() as int, e.stage_name@) {
        seq![flow_unknown_stage_text(flow, e.stage_name@)]
    } else {
        override_errors(w, flow, fc, e) + inherited_rejection_errors(w, flow, fc, e) + inherited_failure_errors(
            w,
            flow,
            fc,
            e,
        )
    }
}

/// Override tool restrictions (the first `m`) whose pattern is blank.
pub open spec fn flow_blank_pattern_errors(flow: Seq<char>, stage: Seq<char>, tools: Seq<DisallowedToolEntry>, m: nat) -> Seq<Seq<char>>
    decreases m,
{
    if m == 0 {
        Seq::empty()
    } else {
        flow_blank_pattern_errors(flow, stage, tools, (m - 1) as nat) + when(
            trim(tools[m - 1].pattern@).len() == 0,
            flow_empty_pattern_text(flow, stage, (m - 1) as nat),
        )
    }
}

/// What one check finds in one flow entry.
pub open spec fn entry_errors(w: WorkflowConfig, check: FlowCheck, flow: Seq<char>, fc: FlowConfig, e: FlowStageEntry) -> Seq<Seq<char>> {
    match check {
        FlowCheck::Structure => structure_entry_errors(w, flow, fc, e),
        FlowCheck::SubtaskReferences => match e.overrides {
            Some(o) => match o.capabilities {
                Some(c) => match c.subtasks {
                    Some(sc) => match sc.flow {
                        Some(f) => when(!has_flow(w, f@), flow_unknown_subtask_flow_text(flow, e.stage_name@, f@)),
                        None => Seq::empty(),
                    },
                    None => Seq::empty(),
                },
                None => Seq::empty(),
            },
            None => Seq::empty(),
        },
        FlowCheck::Models => match e.overrides {
            Some(o) => match o.model {
                Some(m) => when(is_script_named(w, e.stage_name@), flow_script_model_text(flow, e.stage_name@))
                    + when(trim(m@).len() == 0, flow_empty_model_text(flow, e.stage_name@)),
                None => Seq::empty(),
            },
            None => Seq::empty(),
        },
        FlowCheck::ToolRestrictions => match e.overrides {
            Some(o) => match o.disallowed_tools {
                Some(t) => flow_blank_pattern_errors(flow, e.stage_name@, t@, t@.len()),
                None => Seq::empty(),
            },
            None => Seq::empty(),
        },
    }
}

/// What one check finds in the first `m` entries of a flow.
pub open spec fn entry_check_errors(w: WorkflowConfig, check: FlowCheck, flow: Seq<char>, fc: FlowConfig, m: nat) -> Seq<Seq<char>>
    decreases m,
{
    if m == 0 {
        Seq::empty()
    } else {
        entry_check_errors(w, check, flow, fc, (m - 1) as nat) + entry_errors(w, check, flow, fc, fc.stages@[m - 1])
    }
}

/// What one check finds in one flow.
pub open spec fn flow_errors(w: WorkflowConfig, check: FlowCheck, flow: Seq<char>, fc: FlowConfig) -> Seq<Seq<char>> {
    match check {
        FlowCheck::Structure => {
            let entries = if fc.stages@.len() == 0 {
                seq![empty_flow_text(flow)]
            } else {
                entry_check_errors(w, check, flow, fc, fc.stages@.len())
            };
            when(flow == "default"@, reserved_flow_text()) + entries
        },
        _ => entry_check_errors(w, check, flow, fc, fc.stages@.len()),
    }
}

/// What one check finds in the first `n` flows, in flow order.
pub open spec fn flow_check_errors(w: WorkflowConfig, check: FlowCheck, n: nat) -> Seq<Seq<char>>
    decreases n,
{
    if n == 0 {
        Seq::empty()
    } else {
        let entry = flow_entries(w.flows)[n - 1];
        flow_check_errors(w, check, (n - 1) as nat) + flow_errors(w, check, entry.0, entry.1)
    }
}

impl WorkflowConfig {
    /// Every validation error of the workflow, in the order they are reported:
    /// duplicate names, duplicate artifacts, unknown inputs, forward inputs,
    /// rejection targets, the integration stage, script stages, flows, subtask
    /// references, models and tool restrictions.
    pub open spec fn validation_errors(self) -> Seq<Seq<char>> {
        if self.stages@.len() == 0 {
            seq![empty_workflow_text()]
        } else {
            let valid = debug_text_list(stage_names(self.stages@));
            let available = debug_text_list(artifact_names(self.stages@));
            let n = self.stages@.len();
            let f = flow_entries(self.flows).len();
            stage_check_errors(self, StageCheck::DuplicateNames, valid, available, n)
                + stage_check_errors(self, StageCheck::DuplicateArtifacts, valid, available, n)
                + stage_check_errors(self, StageCheck::InputReferences, valid, available, n)
                + stage_check_errors(self, StageCheck::InputOrder, valid, available, n)
                + stage_check_errors(self, StageCheck::RejectionTargets, valid, available, n)
                + integration_errors(self, valid)
                + stage_check_errors(self, StageCheck::ScriptStages, valid, available, n)
                + flow_check_errors(self, FlowCheck::Structure, f)
                + stage_check_errors(self, StageCheck::SubtaskReferences, valid, available, n)
                + flow_check_errors(self, FlowCheck::SubtaskReferences, f)
                + stage_check_errors(self, StageCheck::Models, valid, available, n)
                + flow_check_errors(self, FlowCheck::Models, f)
                + stage_check_errors(self, StageCheck::ToolRestrictions, valid, available, n)
                + flow_check_errors(self, FlowCheck::ToolRestrictions, f)
        }
    }
}

// ---------------------------------------------------------------------------
// Executable checks
// ---------------------------------------------------------------------------

/// Appends one message.
fn push_message(errors: &mut Vec<String>, m: String)
    ensures
        message_texts(final(errors)@) == message_texts(old(errors)@).push(m@),
{
    let ghost text = m@;
    errors.push(m);
    assert(message_texts(errors@) =~= message_texts(old(errors)@).push(text));
}

/// Appends a message when `bad` holds.
fn push_when(errors: &mut Vec<String>, bad: bool, m: String)
    ensures
        message_texts(final(errors)@) == message_texts(old(errors)@) + when(bad, m@),
{
    if bad {
        push_message(errors, m);
        assert(message_texts(old(errors)@).push(m@) =~= message_texts(old(errors)@) + seq![m@]);
    } else {
        assert(message_texts(old(errors)@) =~= message_texts(old(errors)@) + Seq::<Seq<char>>::empty());
    }
}

/// Whether one of the first `n` stages is named `x`.
fn name_within(stages: &Vec<StageConfig>, n: usize, x: &str) -> (r: bool)
    requires
        n <= stages.len(),
    ensures
        r == named_within(stages@, n as int, x@),
{
    let mut j: usize = 0;
    while j < n
        invariant
            j <= n <= stages.len(),
            forall|i: int| 0 <= i < j ==> (#[trigger] stages@[i]).name@ != x@,
        decreases n - j,
    {
        if str_eq(stages[j].name.as_str(), x) {
            assert(stages@[j as int].name@ == x@);
            return true;
        }
        j = j + 1;
    }
    false
}

/// Whether one of the first `n` stages produces artifact `x`.
fn artifact_within(stages: &Vec<StageConfig>, n: usize, x: &str) -> (r: bool)
    requires
        n <= stages.len(),
    ensures
        r == produced_within(stages@, n as int, x@),
{
    let mut j: usize = 0;
    while j < n
        invariant
            j <= n <= stages.len(),
            forall|i: int| 0 <= i < j ==> (#[trigger] stages@[i]).artifact@ != x@,
        decreases n - j,
    {
        if str_eq(stages[j].artifact.as_str(), x) {
            assert(stages@[j as int].artifact@ == x@);
            return true;
        }
        j = j + 1;
    }
    false
}

/// Name of the first stage producing artifact `a`, or "unknown".
fn producer_of<'a>(stages: &'a Vec<StageConfig>, a: &str) -> (r: &'a str)
    ensures
        r@ == producer_name(stages@, a@),
{
    let mut j: usize = 0;
    while j < stages.len()
        invariant
            j <= stages.len(),
            !produced_within(stages@, j as int, a@),
        decreases stages.len() - j,
    {
        if str_eq(stages[j].artifact.as_str(), a) {
            proof {
                let s = stages@;
                assert(s[j as int].artifact@ == a@);
                assert(produced_within(s, s.len() as int, a@));
                let p = choose|i: int| 0 <= i < s.len() && s[i].artifact@ == a@ && !produced_within(s, i, a@);
                assert(0 <= p < s.len() && s[p].artifact@ == a@ && !produced_within(s, p, a@));
                if p < j {
                    assert(produced_within(s, j as int, a@));
                } else if p > j {
                    assert(produced_within(s, p, a@));
                }
            }
            return stages[j].name.as_str();
        }
        proof {
            let s = stages@;
            if produced_within(s, j + 1, a@) {
                let w = choose|i: int| 0 <= i < j + 1 && i < s.len() && (#[trigger] s[i]).artifact@ == a@;
                if w < j {
                    assert(produced_within(s, j as int, a@));
                }
            }
        }
        j = j + 1;
    }
    proof {
        reveal_strlit("unknown");
    }
    "unknown"
}

impl WorkflowConfig {
    /// Artifact names, in stage order.
    fn artifact_list(&self) -> (r: Vec<&str>)
        ensures
            str_views(r@) == artifact_names(self.stages@),
    {
        let mut out: Vec<&str> = Vec::new();
        let mut i: usize = 0;
        while i < self.stages.len()
            invariant
                i <= self.stages.len(),
                out@.len() == i,
                forall|k: int| 0 <= k < i ==> (#[trigger] out@[k])@ == self.stages@[k].artifact@,
            decreases self.stages.len() - i,
        {
            out.push(self.stages[i].artifact.as_str());
            i = i + 1;
        }
        assert(str_views(out@) =~= artifact_names(self.stages@));
        out
    }

    /// Unknown inputs of stage `st`.
    fn check_inputs_exist(&self, st: &StageConfig, available: &str, errors: &mut Vec<String>)
        ensures
            message_texts(final(errors)@) == message_texts(old(errors)@) + unknown_input_errors(
                self.stages@,
                *st,
                available@,
                st.inputs@.len(),
            ),
    {
        let mut m: usize = 0;
        while m < st.inputs.len()
            invariant
                m <= st.inputs.len(),
                message_texts(errors@) == message_texts(old(errors)@) + unknown_input_errors(
                    self.stages@,
                    *st,
                    available@,
                    m as nat,
                ),
            decreases st.inputs.len() - m,
        {
            let input = st.inputs[m].as_str();
            let known = artifact_within(&self.stages, self.stages.len(), input);
            let ghost before = message_texts(errors@);
            let msg = unknown_input_message(st.name.as_str(), input, available);
            push_when(errors, !known, msg);
            assert(message_texts(errors@) =~= message_texts(old(errors)@) + unknown_input_errors(
                self.stages@,
                *st,
                available@,
                (m + 1) as nat,
            ));
            m = m + 1;
        }
    }

    /// Inputs of stage `k` that only a later stage produces.
    fn check_input_order(&self, k: usize, errors: &mut Vec<String>)
        requires
            k < self.stages.len(),
        ensures
            message_texts(final(errors)@) == message_texts(old(errors)@) + forward_input_errors(
                self.stages@,
                k as int,
                self.stages@[k as int].inputs@.len(),
            ),
    {
        let st = &self.stages[k];
        let mut m: usize = 0;
        while m < st.inputs.len()
            invariant
                k < self.stages.len(),
                *st == self.stages@[k as int],
                m <= st.inputs.len(),
                message_texts(errors@) == message_texts(old(errors)@) + forward_input_errors(
                    self.stages@,
                    k as int,
                    m as nat,
                ),
            decreases st.inputs.len() - m,
        {
            let input = st.inputs[m].as_str();
            let earlier = artifact_within(&self.stages, k, input);
            let anywhere = artifact_within(&self.stages, self.stages.len(), input);
            if !earlier && anywhere {
                let producer = producer_of(&self.stages, input);
                push_when(errors, true, forward_input_message(st.name.as_str(), input, producer));
            } else {
                assert(message_texts(errors@) + Seq::<Seq<char>>::empty() =~= message_texts(errors@));
            }
            assert(message_texts(errors@) =~= message_texts(old(errors)@) + forward_input_errors(
                self.stages@,
                k as int,
                (m + 1) as nat,
            ));
            m = m + 1;
        }
    }

    /// An approval whose rejection target does not exist.
    fn check_rejection_target(&self, st: &StageConfig, valid: &str, errors: &mut Vec<String>)
        ensures
            message_texts(final(errors)@) == message_texts(old(errors)@) + rejection_target_errors(
                self.stages@,
                *st,
                valid@,
            ),
    {
        match &st.capabilities.approval {
            Some(a) => match &a.rejection_stage {
                Some(t) => {
                    let known = name_within(&self.stages, self.stages.len(), t.as_str());
                    push_when(errors, !known, unknown_rejection_message(st.name.as_str(), t.as_str(), valid));
                },
                None => {
                    assert(message_texts(errors@) + Seq::<Seq<char>>::empty() =~= message_texts(errors@));
                },
            },
            None => {
                assert(message_texts(errors@) + Seq::<Seq<char>>::empty() =~= message_texts(errors@));
            },
        }
    }

    /// Mistakes in a script stage.
    #[verifier::spinoff_prover]
    #[verifier::rlimit(40)]
    fn check_script_stage(&self, st: &StageConfig, valid: &str, errors: &mut Vec<String>)
        ensures
            message_texts(final(errors)@) == message_texts(old(errors)@) + script_stage_errors(
                self.stages@,
                *st,
                valid@,
            ),
    {
        let ghost e0 = message_texts(errors@);
        push_when(
            errors,
            st.prompt.is_some() && st.script.is_some(),
            prompt_and_script_message(st.name.as_str()),
        );
        let ghost e1 = message_texts(errors@);
        match &st.script {
            Some(sc) => {
                match &sc.on_failure {
                    Some(f) => {
                        let known = name_within(&self.stages, self.stages.len(), f.as_str());
                        push_when(
                            errors,
                            !known,
                            unknown_script_failure_message(st.name.as_str(), f.as_str(), valid),
                        );
                    },
                    None => {
                        assert(message_texts(errors@) + Seq::<Seq<char>>::empty() =~= message_texts(errors@));
                    },
                }
                push_when(errors, st.capabilities.ask_questions, script_questions_message(st.name.as_str()));
                push_when(
                    errors,
                    st.capabilities.produces_subtasks(),
                    script_subtasks_message(st.name.as_str()),
                );
            },
            None => {
                assert(message_texts(errors@) + Seq::<Seq<char>>::empty() =~= message_texts(errors@));
            },
        }
        assert(message_texts(errors@) =~= message_texts(old(errors)@) + script_stage_errors(
            self.stages@,
            *st,
            valid@,
        ));
    }

    /// Subtask settings naming a missing flow or stage.
    fn check_subtask_references(&self, st: &StageConfig, errors: &mut Vec<String>)
        ensures
            message_texts(final(errors)@) == message_texts(old(errors)@) + subtask_reference_errors(*self, *st),
    {
        match &st.capabilities.subtasks {
            Some(sc) => {
                match &sc.flow {
                    Some(f) => {
                        let known = flows_contains_key(&self.flows, f.as_str());
                        push_when(errors, !known, unknown_subtask_flow_message(st.name.as_str(), f.as_str()));
                    },
                    None => {
                        assert(message_texts(errors@) + Seq::<Seq<char>>::empty() =~= message_texts(errors@));
                    },
                }
                match &sc.completion_stage {
                    Some(t) => {
                        let known = name_within(&self.stages, self.stages.len(), t.as_str());
                        push_when(errors, !known, unknown_completion_message(st.name.as_str(), t.as_str()));
                    },
                    None => {
                        assert(message_texts(errors@) + Seq::<Seq<char>>::empty() =~= message_texts(errors@));
                    },
                }
            },
            None => {
                assert(message_texts(errors@) + Seq::<Seq<char>>::empty() =~= message_texts(errors@));
            },
        }
        assert(message_texts(errors@) =~= message_texts(old(errors)@) + subtask_reference_errors(*self, *st));
    }

    /// Model settings that cannot take effect.
    fn check_models(&self, st: &StageConfig, errors: &mut Vec<String>)
        ensures
            message_texts(final(errors)@) == message_texts(old(errors)@) + model_errors(*st),
    {
        let script = st.is_script_stage();
        push_when(errors, st.model.is_some() && script, script_model_message(st.name.as_str()));
        push_when(errors, st.restart_on_reentry && script, script_restart_message(st.name.as_str()));
        match &st.model {
            Some(m) => {
                push_when(errors, is_blank(m.as_str()), empty_model_message(st.name.as_str()));
            },
            None => {
                assert(message_texts(errors@) + Seq::<Seq<char>>::empty() =~= message_texts(errors@));
            },
        }
        assert(message_texts(errors@) =~= message_texts(old(errors)@) + model_errors(*st));
    }

    /// Tool restrictions that cannot take effect or are blank.
    fn check_tools(&self, st: &StageConfig, errors: &mut Vec<String>)
        ensures
            message_texts(final(errors)@) == message_texts(old(errors)@) + tool_errors(*st),
    {
        push_when(
            errors,
            st.disallowed_tools.len() > 0 && st.is_script_stage(),
            script_tools_message(st.name.as_str()),
        );
        let ghost e1 = message_texts(errors@);
        let mut i: usize = 0;
        while i < st.disallowed_tools.len()
            invariant
                i <= st.disallowed_tools.len(),
                message_texts(errors@) == e1 + blank_pattern_errors(st.name@, st.disallowed_tools@, i as nat),
            decreases st.disallowed_tools.len() - i,
        {
            let blank = is_blank(st.disallowed_tools[i].pattern.as_str());
            push_when(errors, blank, empty_pattern_message(st.name.as_str(), i as u64));
            assert(message_texts(errors@) =~= e1 + blank_pattern_errors(
                st.name@,
                st.disallowed_tools@,
                (i + 1) as nat,
            ));
            i = i + 1;
        }
        assert(message_texts(errors@) =~= message_texts(old(errors)@) + tool_errors(*st));
    }

    /// Runs one check on stage `k`.
    fn check_stage(&self, check: StageCheck, valid: &str, available: &str, k: usize, errors: &mut Vec<String>)
        requires
            k < self.stages.len(),
        ensures
            message_texts(final(errors)@) == message_texts(old(errors)@) + stage_errors(
                *self,
                check,
                valid@,
                available@,
                k as int,
            ),
    {
        let st = &self.stages[k];
        match check {
            StageCheck::DuplicateNames => {
                let seen = name_within(&self.stages, k, st.name.as_str());
                push_when(errors, seen, duplicate_stage_message(st.name.as_str()));
            },
            StageCheck::DuplicateArtifacts => {
                let seen = artifact_within(&self.stages, k, st.artifact.as_str());
                push_when(errors, seen, duplicate_artifact_message(st.artifact.as_str()));
            },
            StageCheck::InputReferences => self.check_inputs_exist(st, available, errors),
            StageCheck::InputOrder => self.check_input_order(k, errors),
            StageCheck::RejectionTargets => self.check_rejection_target(st, valid, errors),
            StageCheck::ScriptStages => self.check_script_stage(st, valid, errors),
            StageCheck::SubtaskReferences => self.check_subtask_references(st, errors),
            StageCheck::Models => self.check_models(st, errors),
            StageCheck::ToolRestrictions => self.check_tools(st, errors),
        }
    }

    /// Runs one check on every stage, in order.
    fn run_stage_check(&self, check: StageCheck, valid: &str, available: &str, errors: &mut Vec<String>)
        ensures
            message_texts(final(errors)@) == message_texts(old(errors)@) + stage_check_errors(
                *self,
                check,
                valid@,
                available@,
                self.stages@.len(),
            ),
    {
        let mut k: usize = 0;
        while k < self.stages.len()
            invariant
                k <= self.stages.len(),
                message_texts(errors@) == message_texts(old(errors)@) + stage_check_errors(
                    *self,
                    check,
                    valid@,
                    available@,
                    k as nat,
                ),
            decreases self.stages.len() - k,
        {
            self.check_stage(check, valid, available, k, errors);
            assert(message_texts(errors@) =~= message_texts(old(errors)@) + stage_check_errors(
                *self,
                check,
                valid@,
                available@,
                (k + 1) as nat,
            ));
            k = k + 1;
        }
    }
}

impl WorkflowConfig {
    /// Whether the stage named `name` runs a script.
    fn stage_is_script(&self, name: &str) -> (r: bool)
        ensures
            r == is_script_named(*self, name@),
    {
        match self.stage(name) {
            Some(s) => s.is_script_stage(),
            None => false,
        }
    }

    /// Override inputs that no stage produces.
    fn check_override_inputs(&self, flow: &str, stage: &str, inputs: &Vec<String>, errors: &mut Vec<String>)
        ensures
            message_texts(final(errors)@) == message_texts(old(errors)@) + override_input_errors(
                *self,
                flow@,
                stage@,
                inputs@,
                inputs@.len(),
            ),
    {
        let mut m: usize = 0;
        while m < inputs.len()
            invariant
                m <= inputs.len(),
                message_texts(errors@) == message_texts(old(errors)@) + override_input_errors(
                    *self,
                    flow@,
                    stage@,
                    inputs@,
                    m as nat,
                ),
            decreases inputs.len() - m,
        {
            let known = artifact_within(&self.stages, self.stages.len(), inputs[m].as_str());
            push_when(errors, !known, flow_unknown_input_message(flow, stage, inputs[m].as_str()));
            assert(message_texts(errors@) =~= message_texts(old(errors)@) + override_input_errors(
                *self,
                flow@,
                stage@,
                inputs@,
                (m + 1) as nat,
            ));
            m = m + 1;
        }
    }

    /// Mistakes in the overrides of a flow entry.
    #[verifier::spinoff_prover]
    #[verifier::rlimit(40)]
    fn check_overrides(&self, flow: &str, fc: &FlowConfig, e: &FlowStageEntry, errors: &mut Vec<String>)
        ensures
            message_texts(final(errors)@) == message_texts(old(errors)@) + override_errors(*self, flow@, *fc, *e),
    {
        match &e.overrides {
            None => {
                assert(message_texts(errors@) + Seq::<Seq<char>>::empty() =~= message_texts(errors@));
            },
            Some(o) => {
                let script = self.stage_is_script(e.stage_name.as_str());
                push_when(errors, script, flow_script_override_message(flow, e.stage_name.as_str()));
                let ghost e1 = message_texts(errors@);
                match &o.inputs {
                    Some(ins) => self.check_override_inputs(flow, e.stage_name.as_str(), ins, errors),
                    None => {
                        assert(message_texts(errors@) + Seq::<Seq<char>>::empty() =~= message_texts(errors@));
                    },
                }
                let ghost e2 = message_texts(errors@);
                let mut pushed = false;
                if let Some(c) = &o.capabilities {
                    if let Some(a) = &c.approval {
                        if let Some(t) = &a.rejection_stage {
                            let listed = entry_index(&fc.stages, t.as_str()).is_some();
                            push_when(
                                errors,
                                !listed,
                                flow_override_rejection_message(flow, e.stage_name.as_str(), t.as_str()),
                            );
                            pushed = true;
                        }
                    }
                }
                if !pushed {
                    assert(message_texts(errors@) + Seq::<Seq<char>>::empty() =~= message_texts(errors@));
                }
                assert(message_texts(errors@) =~= message_texts(old(errors)@) + override_errors(*self, flow@, *fc, *e));
            },
        }
    }

    /// A stage's own rejection target that the flow leaves out.
    fn check_inherited_rejection(&self, flow: &str, fc: &FlowConfig, e: &FlowStageEntry, errors: &mut Vec<String>)
        ensures
            message_texts(final(errors)@) == message_texts(old(errors)@) + inherited_rejection_errors(
                *self,
                flow@,
                *fc,
                *e,
            ),
    {
        let inherits = match &e.overrides {
            Some(o) => o.capabilities.is_none(),
            None => true,
        };
        let mut pushed = false;
        if inherits {
            if let Some(g) = self.stage(e.stage_name.as_str()) {
                if let Some(a) = &g.capabilities.approval {
                    if let Some(t) = &a.rejection_stage {
                        let listed = entry_index(&fc.stages, t.as_str()).is_some();
                        push_when(
                            errors,
                            !listed,
                            flow_stage_rejection_message(flow, e.stage_name.as_str(), t.as_str()),
                        );
                        pushed = true;
                    }
                }
            }
        }
        if !pushed {
            assert(message_texts(errors@) + Seq::<Seq<char>>::empty() =~= message_texts(errors@));
        }
    }

    /// A script stage's failure target that the flow leaves out.
    fn check_inherited_failure(&self, flow: &str, fc: &FlowConfig, e: &FlowStageEntry, errors: &mut Vec<String>)
        ensures
            message_texts(final(errors)@) == message_texts(old(errors)@) + inherited_failure_errors(
                *self,
                flow@,
                *fc,
                *e,
            ),
    {
        let mut pushed = false;
        if let Some(g) = self.stage(e.stage_name.as_str()) {
            if let Some(sc) = &g.script {
                if let Some(f) = &sc.on_failure {
                    let listed = entry_index(&fc.stages, f.as_str()).is_some();
                    push_when(errors, !listed, flow_script_failure_message(flow, e.stage_name.as_str(), f.as_str()));
                    pushed = true;
                }
            }
        }
        if !pushed {
            assert(message_texts(errors@) + Seq::<Seq<char>>::empty() =~= message_texts(errors@));
        }
    }

    /// Structural mistakes in one flow entry.
    #[verifier::spinoff_prover]
    #[verifier::rlimit(40)]
    fn check_entry_structure(&self, flow: &str, fc: &FlowConfig, e: &FlowStageEntry, errors: &mut Vec<String>)
        ensures
            message_texts(final(errors)@) == message_texts(old(errors)@) + structure_entry_errors(
                *self,
                flow@,
                *fc,
                *e,
            ),
    {
        if !name_within(&self.stages, self.stages.len(), e.stage_name.as_str()) {
            push_message(errors, flow_unknown_stage_message(flow, e.stage_name.as_str()));
            assert(message_texts(errors@) =~= message_texts(old(errors)@) + structure_entry_errors(
                *self,
                flow@,
                *fc,
                *e,
            ));
            return;
        }
        self.check_overrides(flow, fc, e, errors);
        self.check_inherited_rejection(flow, fc, e, errors);
        self.check_inherited_failure(flow, fc, e, errors);
        assert(message_texts(errors@) =~= message_texts(old(errors)@) + structure_entry_errors(
            *self,
            flow@,
            *fc,
            *e,
        ));
    }

    /// Override tool restrictions whose pattern is blank.
    fn check_flow_tools(&self, flow: &str, stage: &str, tools: &Vec<DisallowedToolEntry>, errors: &mut Vec<String>)
        ensures
            message_texts(final(errors)@) == message_texts(old(errors)@) + flow_blank_pattern_errors(
                flow@,
                stage@,
                tools@,
                tools@.len(),
            ),
    {
        let mut i: usize = 0;
        while i < tools.len()
            invariant
                i <= tools.len(),
                message_texts(errors@) == message_texts(old(errors)@) + flow_blank_pattern_errors(
                    flow@,
                    stage@,
                    tools@,
                    i as nat,
                ),
            decreases tools.len() - i,
        {
            let blank = is_blank(tools[i].pattern.as_str());
            push_when(errors, blank, flow_empty_pattern_message(flow, stage, i as u64));
            assert(message_texts(errors@) =~= message_texts(old(errors)@) + flow_blank_pattern_errors(
                flow@,
                stage@,
                tools@,
                (i + 1) as nat,
            ));
            i = i + 1;
        }
    }

    /// Runs one check on one flow entry.
    #[verifier::spinoff_prover]
    #[verifier::rlimit(40)]
    fn check_entry(&self, check: FlowCheck, flow: &str, fc: &FlowConfig, e: &FlowStageEntry, errors: &mut Vec<String>)
        ensures
            message_texts(final(errors)@) == message_texts(old(errors)@) + entry_errors(*self, check, flow@, *fc, *e),
    {
        match check {
            FlowCheck::Structure => self.check_entry_structure(flow, fc, e, errors),
            FlowCheck::SubtaskReferences => {
                let mut pushed = false;
                if let Some(o) = &e.overrides {
                    if let Some(c) = &o.capabilities {
                        if let Some(sc) = &c.subtasks {
                            if let Some(f) = &sc.flow {
                                let known = flows_contains_key(&self.flows, f.as_str());
                                push_when(
                                    errors,
                                    !known,
                                    flow_unknown_subtask_flow_message(flow, e.stage_name.as_str(), f.as_str()),
                                );
                                pushed = true;
                            }
                        }
                    }
                }
                if !pushed {
                    assert(message_texts(errors@) + Seq::<Seq<char>>::empty() =~= message_texts(errors@));
                }
            },
            FlowCheck::Models => {
                let mut pushed = false;
                if let Some(o) = &e.overrides {
                    if let Some(m) = &o.model {
                        let script = self.stage_is_script(e.stage_name.as_str());
                        push_when(errors, script, flow_script_model_message(flow, e.stage_name.as_str()));
                        push_when(errors, is_blank(m.as_str()), flow_empty_model_message(flow, e.stage_name.as_str()));
                        pushed = true;
                    }
                }
                if !pushed {
                    assert(message_texts(errors@) + Seq::<Seq<char>>::empty() =~= message_texts(errors@));
                }
                assert(message_texts(errors@) =~= message_texts(old(errors)@) + entry_errors(
                    *self,
                    check,
                    flow@,
                    *fc,
                    *e,
                ));
            },
            FlowCheck::ToolRestrictions => {
                let mut pushed = false;
                if let Some(o) = &e.overrides {
                    if let Some(t) = &o.disallowed_tools {
                        self.check_flow_tools(flow, e.stage_name.as_str(), t, errors);
                        pushed = true;
                    }
                }
                if !pushed {
                    assert(message_texts(errors@) + Seq::<Seq<char>>::empty() =~= message_texts(errors@));
                }
            },
        }
    }

    /// Runs one check on every entry of a flow, in order.
    fn check_entries(&self, check: FlowCheck, flow: &str, fc: &FlowConfig, errors: &mut Vec<String>)
        ensures
            message_texts(final(errors)@) == message_texts(old(errors)@) + entry_check_errors(
                *self,
                check,
                flow@,
                *fc,
                fc.stages@.len(),
            ),
    {
        let mut m: usize = 0;
        while m < fc.stages.len()
            invariant
                m <= fc.stages.len(),
                message_texts(errors@) == message_texts(old(errors)@) + entry_check_errors(
                    *self,
                    check,
                    flow@,
                    *fc,
                    m as nat,
                ),
            decreases fc.stages.len() - m,
        {
            self.check_entry(check, flow, fc, &fc.stages[m], errors);
            assert(message_texts(errors@) =~= message_texts(old(errors)@) + entry_check_errors(
                *self,
                check,
                flow@,
                *fc,
                (m + 1) as nat,
            ));
            m = m + 1;
        }
    }

    /// Runs one check on one flow.
    #[verifier::spinoff_prover]
    #[verifier::rlimit(40)]
    fn check_flow(&self, check: FlowCheck, flow: &str, fc: &FlowConfig, errors: &mut Vec<String>)
        ensures
            message_texts(final(errors)@) == message_texts(old(errors)@) + flow_errors(*self, check, flow@, *fc),
    {
        match check {
            FlowCheck::Structure => {
                proof {
                    reveal_strlit("default");
                }
                push_when(errors, str_eq(flow, "default"), reserved_flow_message());
                if fc.stages.len() == 0 {
                    push_message(errors, empty_flow_message(flow));
                    assert(message_texts(errors@) =~= message_texts(old(errors)@) + flow_errors(
                        *self,
                        check,
                        flow@,
                        *fc,
                    ));
                } else {
                    self.check_entries(check, flow, fc, errors);
                    assert(message_texts(errors@) =~= message_texts(old(errors)@) + flow_errors(
                        *self,
                        check,
                        flow@,
                        *fc,
                    ));
                }
            },
            _ => self.check_entries(check, flow, fc, errors),
        }
    }

    /// Runs one check on every flow, in declaration order.
    fn run_flow_check(&self, check: FlowCheck, errors: &mut Vec<String>)
        ensures
            message_texts(final(errors)@) == message_texts(old(errors)@) + flow_check_errors(
                *self,
                check,
                flow_entries(self.flows).len(),
            ),
    {
        let n = flows_len(&self.flows);
        let mut k: usize = 0;
        while k < n
            invariant
                k <= n,
                n == flow_entries(self.flows).len(),
                message_texts(errors@) == message_texts(old(errors)@) + flow_check_errors(*self, check, k as nat),
            decreases n - k,
        {
            match flows_get_index(&self.flows, k) {
                Some((name, fc)) => {
                    self.check_flow(check, name.as_str(), fc, errors);
                },
                None => {},
            }
            assert(message_texts(errors@) =~= message_texts(old(errors)@) + flow_check_errors(
                *self,
                check,
                (k + 1) as nat,
            ));
            k = k + 1;
        }
    }

    /// The validation errors of the workflow; empty when it is valid.
    #[verifier::spinoff_prover]
    #[verifier::rlimit(40)]
    pub fn validate(&self) -> (r: Vec<String>)
        ensures
            message_texts(r@) == self.validation_errors(),
    {
        let mut errors: Vec<String> = Vec::new();
        if self.stages.len() == 0 {
            push_message(&mut errors, empty_workflow_message());
            assert(message_texts(errors@) =~= self.validation_errors());
            return errors;
        }
        let names = self.stage_names();
        assert(str_views(names@) =~= stage_names(self.stages@));
        let valid = debug_list(&names);
        let artifacts = self.artifact_list();
        let available = debug_list(&artifacts);
        assert(message_texts(errors@) =~= Seq::<Seq<char>>::empty());
        self.run_stage_check(StageCheck::DuplicateNames, valid.as_str(), available.as_str(), &mut errors);
        assert(message_texts(errors@) =~= stage_check_errors(
            *self,
            StageCheck::DuplicateNames,
            valid@,
            available@,
            self.stages@.len(),
        ));
        self.run_stage_check(StageCheck::DuplicateArtifacts, valid.as_str(), available.as_str(), &mut errors);
        self.run_stage_check(StageCheck::InputReferences, valid.as_str(), available.as_str(), &mut errors);
        self.run_stage_check(StageCheck::InputOrder, valid.as_str(), available.as_str(), &mut errors);
        self.run_stage_check(StageCheck::RejectionTargets, valid.as_str(), available.as_str(), &mut errors);
        let known = name_within(&self.stages, self.stages.len(), self.integration.on_failure.as_str());
        push_when(
            &mut errors,
            !known,
            unknown_integration_message(self.integration.on_failure.as_str(), valid.as_str()),
        );
        self.run_stage_check(StageCheck::ScriptStages, valid.as_str(), available.as_str(), &mut errors);
        self.run_flow_check(FlowCheck::Structure, &mut errors);
        self.run_stage_check(StageCheck::SubtaskReferences, valid.as_str(), available.as_str(), &mut errors);
        self.run_flow_check(FlowCheck::SubtaskReferences, &mut errors);
        self.run_stage_check(StageCheck::Models, valid.as_str(), available.as_str(), &mut errors);
        self.run_flow_check(FlowCheck::Models, &mut errors);
        self.run_stage_check(StageCheck::ToolRestrictions, valid.as_str(), available.as_str(), &mut errors);
        self.run_flow_check(FlowCheck::ToolRestrictions, &mut errors);
        errors
    }

    /// Whether the workflow has no validation errors.
    pub fn is_valid(&self) -> (r: bool)
        ensures
            r == (self.validation_errors().len() == 0),
    {
        self.validate().len() == 0
    }
}

/// What one check finds in a stage is among what it finds in all stages.
pub proof fn lemma_stage_errors_counted(w: WorkflowConfig, check: StageCheck, valid: Seq<char>, available: Seq<char>, n: nat, k: int)
    requires
        0 <= k < n,
    ensures
        stage_check_errors(w, check, valid, available, n).len() >= stage_errors(w, check, valid, available, k).len(),
    decreases n,
{
    if k < n - 1 {
        lemma_stage_errors_counted(w, check, valid, available, (n - 1) as nat, k);
    }
}

/// A workflow in which two stages share a name, or two stages produce the
/// same artifact, is not valid.
pub proof fn law_duplicates_invalid(w: WorkflowConfig, i: int, j: int)
    requires
        0 <= i < j < w.stages@.len(),
        w.stages@[i].name@ == w.stages@[j].name@ || w.stages@[i].artifact@ == w.stages@[j].artifact@,
    ensures
        w.validation_errors().len() > 0,
{
    let s = w.stages@;
    let valid = debug_text_list(stage_names(s));
    let available = debug_text_list(artifact_names(s));
    let n = s.len();
    assert(s[i] == s[i]);
    if s[i].name@ == s[j].name@ {
        assert(named_within(s, j, s[j].name@));
        lemma_stage_errors_counted(w, StageCheck::DuplicateNames, valid, available, n, j);
    } else {
        assert(produced_within(s, j, s[j].artifact@));
        lemma_stage_errors_counted(w, StageCheck::DuplicateArtifacts, valid, available, n, j);
    }
}

/// A workflow whose integration stage does not exist is not valid.
pub proof fn law_unknown_integration_stage_invalid(w: WorkflowConfig)
    requires
        !named_within(w.stages@, w.stages@.len() as int, w.integration.on_failure@),
    ensures
        w.validation_errors().len() > 0,
{
}

} // verus!
