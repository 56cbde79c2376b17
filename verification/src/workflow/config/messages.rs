//! The texts of the workflow validation errors, each as a spec function and
//! an executable builder that is proved to produce it.

use vstd::prelude::*;

use crate::text::{dec, owned, push_decimal, push_str};

verus! {

/// What `{:?}` prints for a list of strings (`["a", "b"]`, with Rust's escapes).
pub uninterp spec fn debug_text_list(items: Seq<Seq<char>>) -> Seq<char>;

/// The text views of a list of string slices.
pub open spec fn str_views(v: Seq<&str>) -> Seq<Seq<char>> {
    Seq::new(v.len(), |i: int| v[i]@)
}

/// Formats a list of string slices with `{:?}`.
#[verifier::external_body]
pub(crate) fn debug_list(items: &Vec<&str>) -> (r: String)
    ensures
        r@ == debug_text_list(str_views(items@)),
{
    format!("{:?}", items)
}

pub open spec fn empty_workflow_text() -> Seq<char> {
    "Workflow must have at least one stage"@
}

pub fn empty_workflow_message() -> (r: String)
    ensures
        r@ == empty_workflow_text(),
{
    owned("Workflow must have at least one stage")
}

pub open spec fn duplicate_stage_text(name: Seq<char>) -> Seq<char> {
    "Duplicate stage name \""@ + name + "\". Each stage must have a unique name."@
}

pub fn duplicate_stage_message(name: &str) -> (r: String)
    ensures
        r@ == duplicate_stage_text(name@),
{
    let mut s = owned("Duplicate stage name \"");
    push_str(&mut s, name);
    push_str(&mut s, "\". Each stage must have a unique name.");
    s
}

pub open spec fn duplicate_artifact_text(name: Seq<char>) -> Seq<char> {
    "Duplicate artifact name \""@ + name + "\". Each stage must produce a unique artifact."@
}

pub fn duplicate_artifact_message(name: &str) -> (r: String)
    ensures
        r@ == duplicate_artifact_text(name@),
{
    let mut s = owned("Duplicate artifact name \"");
    push_str(&mut s, name);
    push_str(&mut s, "\". Each stage must produce a unique artifact.");
    s
}

pub open spec fn unknown_input_text(stage: Seq<char>, input: Seq<char>, available: Seq<char>) -> Seq<char> {
    "Stage \""@ + stage + "\" references input artifact \""@ + input
        + "\" which doesn't exist. Available artifacts: "@ + available
}

pub fn unknown_input_message(stage: &str, input: &str, available: &str) -> (r: String)
    ensures
        r@ == unknown_input_text(stage@, input@, available@),
{
    let mut s = owned("Stage \"");
    push_str(&mut s, stage);
    push_str(&mut s, "\" references input artifact \"");
    push_str(&mut s, input);
    push_str(&mut s, "\" which doesn't exist. Available artifacts: ");
    push_str(&mut s, available);
    s
}

pub open spec fn forward_input_text(stage: Seq<char>, input: Seq<char>, producer: Seq<char>) -> Seq<char> {
    "Stage \""@ + stage + "\" references input \""@ + input + "\" from stage \""@ + producer + "\", but \""@
        + producer + "\" comes later in the workflow. Move \""@ + producer + "\" before \""@ + stage
        + "\" or remove this input."@
}

pub fn forward_input_message(stage: &str, input: &str, producer: &str) -> (r: String)
    ensures
        r@ == forward_input_text(stage@, input@, producer@),
{
    let mut s = owned("Stage \"");
    push_str(&mut s, stage);
    push_str(&mut s, "\" references input \"");
    push_str(&mut s, input);
    push_str(&mut s, "\" from stage \"");
    push_str(&mut s, producer);
    push_str(&mut s, "\", but \"");
    push_str(&mut s, producer);
    push_str(&mut s, "\" comes later in the workflow. Move \"");
    push_str(&mut s, producer);
    push_str(&mut s, "\" before \"");
    push_str(&mut s, stage);
    push_str(&mut s, "\" or remove this input.");
    s
}

pub open spec fn unknown_rejection_text(stage: Seq<char>, target: Seq<char>, valid: Seq<char>) -> Seq<char> {
    "Stage \""@ + stage + "\" has approval rejection_stage \""@ + target + "\" which doesn't exist. Valid stages: "@
        + valid
}

pub fn unknown_rejection_message(stage: &str, target: &str, valid: &str) -> (r: String)
    ensures
        r@ == unknown_rejection_text(stage@, target@, valid@),
{
    let mut s = owned("Stage \"");
    push_str(&mut s, stage);
    push_str(&mut s, "\" has approval rejection_stage \"");
    push_str(&mut s, target);
    push_str(&mut s, "\" which doesn't exist. Valid stages: ");
    push_str(&mut s, valid);
    s
}

pub open spec fn unknown_integration_text(target: Seq<char>, valid: Seq<char>) -> Seq<char> {
    "Integration on_failure references stage \""@ + target + "\" which doesn't exist. Valid stages: "@ + valid
}

pub fn unknown_integration_message(target: &str, valid: &str) -> (r: String)
    ensures
        r@ == unknown_integration_text(target@, valid@),
{
    let mut s = owned("Integration on_failure references stage \"");
    push_str(&mut s, target);
    push_str(&mut s, "\" which doesn't exist. Valid stages: ");
    push_str(&mut s, valid);
    s
}

pub open spec fn prompt_and_script_text(stage: Seq<char>) -> Seq<char> {
    "Stage \""@ + stage
        + "\" has both prompt and script configuration. Choose one: either run an agent OR a script, not both."@
}

pub fn prompt_and_script_message(stage: &str) -> (r: String)
    ensures
        r@ == prompt_and_script_text(stage@),
{
    let mut s = owned("Stage \"");
    push_str(&mut s, stage);
    push_str(
        &mut s,
        "\" has both prompt and script configuration. Choose one: either run an agent OR a script, not both.",
    );
    s
}

pub open spec fn unknown_script_failure_text(stage: Seq<char>, target: Seq<char>, valid: Seq<char>) -> Seq<char> {
    "Script stage \""@ + stage + "\" has on_failure=\""@ + target + "\" but stage \""@ + target
        + "\" doesn't exist. Valid stages: "@ + valid
}

pub fn unknown_script_failure_message(stage: &str, target: &str, valid: &str) -> (r: String)
    ensures
        r@ == unknown_script_failure_text(stage@, target@, valid@),
{
    let mut s = owned("Script stage \"");
    push_str(&mut s, stage);
    push_str(&mut s, "\" has on_failure=\"");
    push_str(&mut s, target);
    push_str(&mut s, "\" but stage \"");
    push_str(&mut s, target);
    push_str(&mut s, "\" doesn't exist. Valid stages: ");
    push_str(&mut s, valid);
    s
}

pub open spec fn script_questions_text(stage: Seq<char>) -> Seq<char> {
    "Script stage \""@ + stage + "\" cannot have ask_questions capability. Only agent stages can ask questions."@
}

pub fn script_questions_message(stage: &str) -> (r: String)
    ensures
        r@ == script_questions_text(stage@),
{
    let mut s = owned("Script stage \"");
    push_str(&mut s, stage);
    push_str(&mut s, "\" cannot have ask_questions capability. Only agent stages can ask questions.");
    s
}

pub open spec fn script_subtasks_text(stage: Seq<char>) -> Seq<char> {
    "Script stage \""@ + stage + "\" cannot have subtask capabilities. Only agent stages can produce subtasks."@
}

pub fn script_subtasks_message(stage: &str) -> (r: String)
    ensures
        r@ == script_subtasks_text(stage@),
{
    let mut s = owned("Script stage \"");
    push_str(&mut s, stage);
    push_str(&mut s, "\" cannot have subtask capabilities. Only agent stages can produce subtasks.");
    s
}

pub open spec fn reserved_flow_text() -> Seq<char> {
    "Flow name \"default\" is reserved for the full pipeline"@
}

pub fn reserved_flow_message() -> (r: String)
    ensures
        r@ == reserved_flow_text(),
{
    owned("Flow name \"default\" is reserved for the full pipeline")
}

pub open spec fn empty_flow_text(flow: Seq<char>) -> Seq<char> {
    "Flow \""@ + flow + "\" has no stages"@
}

pub fn empty_flow_message(flow: &str) -> (r: String)
    ensures
        r@ == empty_flow_text(flow@),
{
    let mut s = owned("Flow \"");
    push_str(&mut s, flow);
    push_str(&mut s, "\" has no stages");
    s
}

pub open spec fn flow_unknown_stage_text(flow: Seq<char>, stage: Seq<char>) -> Seq<char> {
    "Flow \""@ + flow + "\" references stage \""@ + stage + "\" which doesn't exist"@
}

pub fn flow_unknown_stage_message(flow: &str, stage: &str) -> (r: String)
    ensures
        r@ == flow_unknown_stage_text(flow@, stage@),
{
    let mut s = owned("Flow \"");
    push_str(&mut s, flow);
    push_str(&mut s, "\" references stage \"");
    push_str(&mut s, stage);
    push_str(&mut s, "\" which doesn't exist");
    s
}

pub open spec fn flow_script_override_text(flow: Seq<char>, stage: Seq<char>) -> Seq<char> {
    "Flow \""@ + flow + "\" cannot override stage \""@ + stage + "\" — script stages don't support overrides"@
}

pub fn flow_script_override_message(flow: &str, stage: &str) -> (r: String)
    ensures
        r@ == flow_script_override_text(flow@, stage@),
{
    let mut s = owned("Flow \"");
    push_str(&mut s, flow);
    push_str(&mut s, "\" cannot override stage \"");
    push_str(&mut s, stage);
    push_str(&mut s, "\" — script stages don't support overrides");
    s
}

pub open spec fn flow_unknown_input_text(flow: Seq<char>, stage: Seq<char>, input: Seq<char>) -> Seq<char> {
    "Flow \""@ + flow + "\" stage \""@ + stage + "\" overrides inputs with \""@ + input
        + "\" which doesn't match any stage artifact"@
}

pub fn flow_unknown_input_message(flow: &str, stage: &str, input: &str) -> (r: String)
    ensures
        r@ == flow_unknown_input_text(flow@, stage@, input@),
{
    let mut s = owned("Flow \"");
    push_str(&mut s, flow);
    push_str(&mut s, "\" stage \"");
    push_str(&mut s, stage);
    push_str(&mut s, "\" overrides inputs with \"");
    push_str(&mut s, input);
    push_str(&mut s, "\" which doesn't match any stage artifact");
    s
}

pub open spec fn flow_override_rejection_text(flow: Seq<char>, stage: Seq<char>, target: Seq<char>) -> Seq<char> {
    "Flow \""@ + flow + "\" stage \""@ + stage + "\" has approval rejection_stage \""@ + target + "\", but \""@
        + target + "\" is not in flow \""@ + flow + "\""@
}

pub fn flow_override_rejection_message(flow: &str, stage: &str, target: &str) -> (r: String)
    ensures
        r@ == flow_override_rejection_text(flow@, stage@, target@),
{
    let mut s = owned("Flow \"");
    push_str(&mut s, flow);
    push_str(&mut s, "\" stage \"");
    push_str(&mut s, stage);
    push_str(&mut s, "\" has approval rejection_stage \"");
    push_str(&mut s, target);
    push_str(&mut s, "\", but \"");
    push_str(&mut s, target);
    push_str(&mut s, "\" is not in flow \"");
    push_str(&mut s, flow);
    push_str(&mut s, "\"");
    s
}

pub open spec fn flow_stage_rejection_text(flow: Seq<char>, stage: Seq<char>, target: Seq<char>) -> Seq<char> {
    "Flow \""@ + flow + "\" includes stage \""@ + stage + "\" with approval rejection_stage \""@ + target
        + "\", but \""@ + target + "\" is not in flow \""@ + flow + "\""@
}

pub fn flow_stage_rejection_message(flow: &str, stage: &str, target: &str) -> (r: String)
    ensures
        r@ == flow_stage_rejection_text(flow@, stage@, target@),
{
    let mut s = owned("Flow \"");
    push_str(&mut s, flow);
    push_str(&mut s, "\" includes stage \"");
    push_str(&mut s, stage);
    push_str(&mut s, "\" with approval rejection_stage \"");
    push_str(&mut s, target);
    push_str(&mut s, "\", but \"");
    push_str(&mut s, target);
    push_str(&mut s, "\" is not in flow \"");
    push_str(&mut s, flow);
    push_str(&mut s, "\"");
    s
}

pub open spec fn flow_script_failure_text(flow: Seq<char>, stage: Seq<char>, target: Seq<char>) -> Seq<char> {
    "Flow \""@ + flow + "\" includes script stage \""@ + stage + "\" with on_failure=\""@ + target + "\", but \""@
        + target + "\" is not in flow \""@ + flow + "\""@
}

pub fn flow_script_failure_message(flow: &str, stage: &str, target: &str) -> (r: String)
    ensures
        r@ == flow_script_failure_text(flow@, stage@, target@),
{
    let mut s = owned("Flow \"");
    push_str(&mut s, flow);
    push_str(&mut s, "\" includes script stage \"");
    push_str(&mut s, stage);
    push_str(&mut s, "\" with on_failure=\"");
    push_str(&mut s, target);
    push_str(&mut s, "\", but \"");
    push_str(&mut s, target);
    push_str(&mut s, "\" is not in flow \"");
    push_str(&mut s, flow);
    push_str(&mut s, "\"");
    s
}

pub open spec fn unknown_subtask_flow_text(stage: Seq<char>, flow: Seq<char>) -> Seq<char> {
    "Stage \""@ + stage + "\" has subtasks.flow=\""@ + flow + "\" but flow \""@ + flow
        + "\" doesn't exist. Define the flow under 'flows:' or remove subtasks.flow."@
}

pub fn unknown_subtask_flow_message(stage: &str, flow: &str) -> (r: String)
    ensures
        r@ == unknown_subtask_flow_text(stage@, flow@),
{
    let mut s = owned("Stage \"");
    push_str(&mut s, stage);
    push_str(&mut s, "\" has subtasks.flow=\"");
    push_str(&mut s, flow);
    push_str(&mut s, "\" but flow \"");
    push_str(&mut s, flow);
    push_str(&mut s, "\" doesn't exist. Define the flow under 'flows:' or remove subtasks.flow.");
    s
}

pub open spec fn unknown_completion_text(stage: Seq<char>, target: Seq<char>) -> Seq<char> {
    "Stage \""@ + stage + "\" has subtasks.completion_stage=\""@ + target + "\" but stage \""@ + target
        + "\" doesn't exist."@
}

pub fn unknown_completion_message(stage: &str, target: &str) -> (r: String)
    ensures
        r@ == unknown_completion_text(stage@, target@),
{
    let mut s = owned("Stage \"");
    push_str(&mut s, stage);
    push_str(&mut s, "\" has subtasks.completion_stage=\"");
    push_str(&mut s, target);
    push_str(&mut s, "\" but stage \"");
    push_str(&mut s, target);
    push_str(&mut s, "\" doesn't exist.");
    s
}

pub open spec fn flow_unknown_subtask_flow_text(flow: Seq<char>, stage: Seq<char>, target: Seq<char>) -> Seq<char> {
    "Flow \""@ + flow + "\" stage \""@ + stage + "\" has subtasks.flow=\""@ + target + "\" but flow \""@ + target
        + "\" doesn't exist."@
}

pub fn flow_unknown_subtask_flow_message(flow: &str, stage: &str, target: &str) -> (r: String)
    ensures
        r@ == flow_unknown_subtask_flow_text(flow@, stage@, target@),
{
    let mut s = owned("Flow \"");
    push_str(&mut s, flow);
    push_str(&mut s, "\" stage \"");
    push_str(&mut s, stage);
    push_str(&mut s, "\" has subtasks.flow=\"");
    push_str(&mut s, target);
    push_str(&mut s, "\" but flow \"");
    push_str(&mut s, target);
    push_str(&mut s, "\" doesn't exist.");
    s
}

pub open spec fn script_model_text(stage: Seq<char>) -> Seq<char> {
    "Script stage \""@ + stage + "\" has a model field, but model is only used by agent stages."@
}

pub fn script_model_message(stage: &str) -> (r: String)
    ensures
        r@ == script_model_text(stage@),
{
    let mut s = owned("Script stage \"");
    push_str(&mut s, stage);
    push_str(&mut s, "\" has a model field, but model is only used by agent stages.");
    s
}

pub open spec fn script_restart_text(stage: Seq<char>) -> Seq<char> {
    "Script stage \""@ + stage
        + "\" has restart_on_reentry set, but restart_on_reentry is only meaningful for agent stages."@
}

pub fn script_restart_message(stage: &str) -> (r: String)
    ensures
        r@ == script_restart_text(stage@),
{
    let mut s = owned("Script stage \"");
    push_str(&mut s, stage);
    push_str(&mut s, "\" has restart_on_reentry set, but restart_on_reentry is only meaningful for agent stages.");
    s
}

pub open spec fn empty_model_text(stage: Seq<char>) -> Seq<char> {
    "Stage \""@ + stage + "\" has an empty model field. Remove the field or specify a model identifier."@
}

pub fn empty_model_message(stage: &str) -> (r: String)
    ensures
        r@ == empty_model_text(stage@),
{
    let mut s = owned("Stage \"");
    push_str(&mut s, stage);
    push_str(&mut s, "\" has an empty model field. Remove the field or specify a model identifier.");
    s
}

pub open spec fn flow_script_model_text(flow: Seq<char>, stage: Seq<char>) -> Seq<char> {
    "Flow \""@ + flow + "\" overrides model on script stage \""@ + stage
        + "\", but model is only used by agent stages."@
}

pub fn flow_script_model_message(flow: &str, stage: &str) -> (r: String)
    ensures
        r@ == flow_script_model_text(flow@, stage@),
{
    let mut s = owned("Flow \"");
    push_str(&mut s, flow);
    push_str(&mut s, "\" overrides model on script stage \"");
    push_str(&mut s, stage);
    push_str(&mut s, "\", but model is only used by agent stages.");
    s
}

pub open spec fn flow_empty_model_text(flow: Seq<char>, stage: Seq<char>) -> Seq<char> {
    "Flow \""@ + flow + "\" stage \""@ + stage
        + "\" has an empty model override. Remove the field or specify a model identifier."@
}

pub fn flow_empty_model_message(flow: &str, stage: &str) -> (r: String)
    ensures
        r@ == flow_empty_model_text(flow@, stage@),
{
    let mut s = owned("Flow \"");
    push_str(&mut s, flow);
    push_str(&mut s, "\" stage \"");
    push_str(&mut s, stage);
    push_str(&mut s, "\" has an empty model override. Remove the field or specify a model identifier.");
    s
}

pub open spec fn script_tools_text(stage: Seq<char>) -> Seq<char> {
    "Script stage \""@ + stage + "\" has disallowed_tools, but tool restrictions are only used by agent stages."@
}

pub fn script_tools_message(stage: &str) -> (r: String)
    ensures
        r@ == script_tools_text(stage@),
{
    let mut s = owned("Script stage \"");
    push_str(&mut s, stage);
    push_str(&mut s, "\" has disallowed_tools, but tool restrictions are only used by agent stages.");
    s
}

pub open spec fn empty_pattern_text(stage: Seq<char>, index: nat) -> Seq<char> {
    "Stage \""@ + stage + "\" has disallowed_tools["@ + dec(index) + "] with an empty pattern."@
}

pub fn empty_pattern_message(stage: &str, index: u64) -> (r: String)
    ensures
        r@ == empty_pattern_text(stage@, index as nat),
{
    let mut s = owned("Stage \"");
    push_str(&mut s, stage);
    push_str(&mut s, "\" has disallowed_tools[");
    push_decimal(&mut s, index);
    push_str(&mut s, "] with an empty pattern.");
    s
}

pub open spec fn flow_empty_pattern_text(flow: Seq<char>, stage: Seq<char>, index: nat) -> Seq<char> {
    "Flow \""@ + flow + "\" stage \""@ + stage + "\" has disallowed_tools["@ + dec(index)
        + "] with an empty pattern."@
}

pub fn flow_empty_pattern_message(flow: &str, stage: &str, index: u64) -> (r: String)
    ensures
        r@ == flow_empty_pattern_text(flow@, stage@, index as nat),
{
    let mut s = owned("Flow \"");
    push_str(&mut s, flow);
    push_str(&mut s, "\" stage \"");
    push_str(&mut s, stage);
    push_str(&mut s, "\" has disallowed_tools[");
    push_decimal(&mut s, index);
    push_str(&mut s, "] with an empty pattern.");
    s
}

} // verus!
