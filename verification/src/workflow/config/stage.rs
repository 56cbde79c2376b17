//! Stage configuration: what each workflow stage produces, needs and may do.

use vstd::prelude::*;

use crate::text::{chars_of, owned, push_str};
use crate::workflow::runtime::{clone_opt_string, clone_strings};

verus! {

/// Configuration of one workflow stage.
#[derive(Debug, Clone, PartialEq)]
pub struct StageConfig {
    /// Unique stage name (e.g. "planning").
    pub name: String,
    /// Display name; defaults to the capitalized name.
    pub display_name: Option<String>,
    /// What the stage does, for prompt overviews.
    pub description: Option<String>,
    /// Name of the artifact the stage produces.
    pub artifact: String,
    /// Artifacts of earlier stages the stage reads.
    pub inputs: Vec<String>,
    pub capabilities: StageCapabilities,
    /// Prompt template path; defaults to `{name}.md` for agent stages.
    pub prompt: Option<String>,
    /// Custom JSON schema file.
    pub schema_file: Option<String>,
    /// Script to run instead of an agent.
    pub script: Option<ScriptStageConfig>,
    /// Runs without human approval.
    pub is_automated: bool,
    /// Model identifier for agent stages.
    pub model: Option<String>,
    /// Tool restrictions for agent stages.
    pub disallowed_tools: Vec<DisallowedToolEntry>,
    /// Start a fresh agent session when the stage is re-entered.
    pub restart_on_reentry: bool,
}

/// A tool the agent may not use, with an optional explanation.
#[derive(Debug, Clone, PartialEq)]
pub struct DisallowedToolEntry {
    /// Tool pattern, e.g. `Bash(cargo *)`.
    pub pattern: String,
    /// Why the tool is refused.
    pub message: String,
}

impl DisallowedToolEntry {
    pub fn duplicate(&self) -> (r: DisallowedToolEntry)
        ensures
            r == *self,
    {
        DisallowedToolEntry { pattern: self.pattern.clone(), message: self.message.clone() }
    }
}

/// A copy of a list of tool restrictions.
pub fn clone_tool_entries(v: &Vec<DisallowedToolEntry>) -> (r: Vec<DisallowedToolEntry>)
    ensures
        r@ == v@,
{
    let mut out: Vec<DisallowedToolEntry> = Vec::new();
    let mut i: usize = 0;
    while i < v.len()
        invariant
            i <= v.len(),
            out@ == v@.take(i as int),
        decreases v.len() - i,
    {
        out.push(v[i].duplicate());
        assert(v@.take(i + 1) =~= v@.take(i as int).push(v@[i as int]));
        i = i + 1;
    }
    assert(v@.take(v.len() as int) =~= v@);
    out
}

/// What `char::to_uppercase` yields for a character (Unicode case mapping).
pub uninterp spec fn uppercase_of(c: char) -> Seq<char>;

/// The ASCII uppercase of an ASCII character: `a`..`z` become `A`..`Z`,
/// other characters stay.
pub open spec fn ascii_upper(c: char) -> char {
    if 'a' <= c && c <= 'z' {
        ((c as u32) - 32) as char
    } else {
        c
    }
}

/// The uppercase form of `c` (`char::to_uppercase`, collected). As std
/// documents, an ASCII character maps to its ASCII uppercase, a single
/// character.
#[verifier::external_body]
fn char_uppercase(c: char) -> (r: String)
    ensures
        r@ == uppercase_of(c),
        (c as u32) < 128 ==> r@ == seq![ascii_upper(c)],
{
    c.to_uppercase().collect::<String>()
}

/// `s` with its first character uppercased.
pub open spec fn capitalized(s: Seq<char>) -> Seq<char> {
    if s.len() == 0 {
        s
    } else {
        uppercase_of(s[0]) + s.drop_first()
    }
}

/// Uppercases the first character of `s`.
pub fn capitalize(s: &str) -> (r: String)
    ensures
        r@ == capitalized(s@),
        s@.len() > 0 && (s@[0] as u32) < 128 ==> r@ == seq![ascii_upper(s@[0])] + s@.drop_first(),
{
    let v = chars_of(s);
    if v.len() == 0 {
        return String::new();
    }
    let mut r = char_uppercase(v[0]);
    let rest = crate::text::string_from_chars(&v, 1, v.len());
    push_str(&mut r, rest.as_str());
    assert(v@.subrange(1, v@.len() as int) =~= v@.drop_first());
    r
}

/// Default timeout of a script stage, in seconds.
pub fn default_script_timeout() -> (r: u32)
    ensures
        r == 120,
{
    120
}

/// The display name of a stage.
pub open spec fn display_of(s: StageConfig) -> Seq<char> {
    match s.display_name {
        Some(d) => d@,
        None => capitalized(s.name@),
    }
}

/// The prompt template path of a stage.
pub open spec fn prompt_path_of(s: StageConfig) -> Option<Seq<char>> {
    if s.script is Some {
        None
    } else {
        match s.prompt {
            Some(p) => Some(p@),
            None => Some(s.name@ + ".md"@),
        }
    }
}

impl StageConfig {
    /// A new agent stage.
    pub fn new(name: &str, artifact: &str) -> (r: StageConfig)
        ensures
            r.name@ == name@,
            r.artifact@ == artifact@,
            r.display_name is None,
            r.description is None,
            r.inputs@.len() == 0,
            r.capabilities == StageCapabilities::spec_default(),
            r.prompt is None,
            r.schema_file is None,
            r.script is None,
            !r.is_automated,
            r.model is None,
            r.disallowed_tools@.len() == 0,
            !r.restart_on_reentry,
    {
        StageConfig {
            name: owned(name),
            display_name: None,
            description: None,
            artifact: owned(artifact),
            inputs: Vec::new(),
            capabilities: StageCapabilities::empty(),
            prompt: None,
            schema_file: None,
            script: None,
            is_automated: false,
            model: None,
            disallowed_tools: Vec::new(),
            restart_on_reentry: false,
        }
    }

    /// A new script stage running `command`.
    pub fn new_script(name: &str, artifact: &str, command: &str) -> (r: StageConfig)
        ensures
            r.name@ == name@,
            r.artifact@ == artifact@,
            r.display_name is None,
            r.description is None,
            r.inputs@.len() == 0,
            r.capabilities == StageCapabilities::spec_default(),
            r.prompt is None,
            r.schema_file is None,
            r.script matches Some(sc) && sc.command@ == command@ && sc.timeout_seconds == 120 && sc.on_failure is None,
            !r.is_automated,
            r.model is None,
            r.disallowed_tools@.len() == 0,
            !r.restart_on_reentry,
    {
        StageConfig {
            name: owned(name),
            display_name: None,
            description: None,
            artifact: owned(artifact),
            inputs: Vec::new(),
            capabilities: StageCapabilities::empty(),
            prompt: None,
            schema_file: None,
            script: Some(ScriptStageConfig::new(command)),
            is_automated: false,
            model: None,
            disallowed_tools: Vec::new(),
            restart_on_reentry: false,
        }
    }

    /// Builder: set the display name.
    pub fn with_display_name(self, name: &str) -> (r: StageConfig)
        ensures
            r.display_name matches Some(d) && d@ == name@,
            r == (StageConfig { display_name: r.display_name, ..self }),
    {
        StageConfig { display_name: Some(owned(name)), ..self }
    }

    /// Builder: set the inputs.
    pub fn with_inputs(self, inputs: Vec<String>) -> (r: StageConfig)
        ensures
            r == (StageConfig { inputs, ..self }),
    {
        StageConfig { inputs, ..self }
    }

    /// Builder: set the capabilities.
    pub fn with_capabilities(self, capabilities: StageCapabilities) -> (r: StageConfig)
        ensures
            r == (StageConfig { capabilities, ..self }),
    {
        StageConfig { capabilities, ..self }
    }

    /// Builder: run without human approval.
    pub fn automated(self) -> (r: StageConfig)
        ensures
            r == (StageConfig { is_automated: true, ..self }),
    {
        StageConfig { is_automated: true, ..self }
    }

    /// Builder: set the prompt template.
    pub fn with_prompt(self, prompt: &str) -> (r: StageConfig)
        ensures
            r.prompt matches Some(p) && p@ == prompt@,
            r == (StageConfig { prompt: r.prompt, ..self }),
    {
        StageConfig { prompt: Some(owned(prompt)), ..self }
    }

    /// Builder: set the schema file.
    pub fn with_schema_file(self, path: &str) -> (r: StageConfig)
        ensures
            r.schema_file matches Some(p) && p@ == path@,
            r == (StageConfig { schema_file: r.schema_file, ..self }),
    {
        StageConfig { schema_file: Some(owned(path)), ..self }
    }

    /// Builder: set the model.
    pub fn with_model(self, model: &str) -> (r: StageConfig)
        ensures
            r.model matches Some(m) && m@ == model@,
            r == (StageConfig { model: r.model, ..self }),
    {
        StageConfig { model: Some(owned(model)), ..self }
    }

    /// Builder: set the script.
    pub fn with_script(self, script: ScriptStageConfig) -> (r: StageConfig)
        ensures
            r == (StageConfig { script: Some(script), ..self }),
    {
        StageConfig { script: Some(script), ..self }
    }

    /// The display name, falling back to the capitalized name.
    pub fn display(&self) -> (r: String)
        ensures
            r@ == display_of(*self),
            self.display_name is None && self.name@.len() > 0 && (self.name@[0] as u32) < 128 ==> r@ == seq![
                ascii_upper(self.name@[0]),
            ] + self.name@.drop_first(),
    {
        match &self.display_name {
            Some(d) => d.clone(),
            None => capitalize(self.name.as_str()),
        }
    }

    pub fn is_script_stage(&self) -> (r: bool)
        ensures
            r == (self.script is Some),
    {
        self.script.is_some()
    }

    pub fn is_agent_stage(&self) -> (r: bool)
        ensures
            r == (self.script is None),
    {
        !self.is_script_stage()
    }

    /// The script configuration of a script stage.
    pub fn script_config(&self) -> (r: Option<&ScriptStageConfig>)
        ensures
            match self.script {
                Some(s) => r == Some(&s),
                None => r is None,
            },
    {
        self.script.as_ref()
    }

    /// The prompt template: `prompt`, else `{name}.md`; `None` for scripts.
    pub fn prompt_path(&self) -> (r: Option<String>)
        ensures
            opt_text(r) == prompt_path_of(*self),
    {
        if self.script.is_some() {
            return None;
        }
        match &self.prompt {
            Some(p) => Some(p.clone()),
            None => {
                let mut s = self.name.clone();
                push_str(&mut s, ".md");
                Some(s)
            },
        }
    }
}

pub open spec fn opt_text(o: Option<String>) -> Option<Seq<char>> {
    match o {
        Some(s) => Some(s@),
        None => None,
    }
}

/// What a stage may do.
#[derive(Debug, Clone, PartialEq, Default)]
pub struct StageCapabilities {
    /// May ask clarifying questions.
    pub ask_questions: bool,
    /// Present when the stage can produce subtasks.
    pub subtasks: Option<SubtaskCapabilities>,
    /// Present when the stage makes an approve/reject decision.
    pub approval: Option<ApprovalCapabilities>,
}

/// Approval capability.
#[derive(Debug, Clone, PartialEq, Default)]
pub struct ApprovalCapabilities {
    /// Where rejected work goes; `None` means the previous stage of the flow.
    pub rejection_stage: Option<String>,
    /// Rejection starts the target stage's agent session afresh.
    pub reset_session: bool,
}

/// Subtask capability.
#[derive(Debug, Clone, PartialEq, Default)]
pub struct SubtaskCapabilities {
    /// Flow for the subtasks; `None` is the full pipeline.
    pub flow: Option<String>,
    /// Stage the parent resumes at after the subtasks complete.
    pub completion_stage: Option<String>,
}

impl StageCapabilities {
    pub open spec fn spec_default() -> StageCapabilities {
        StageCapabilities { ask_questions: false, subtasks: None, approval: None }
    }

    /// No capabilities (the default).
    pub fn empty() -> (r: StageCapabilities)
        ensures
            r == StageCapabilities::spec_default(),
    {
        StageCapabilities { ask_questions: false, subtasks: None, approval: None }
    }

    /// Questions enabled.
    pub fn with_questions() -> (r: StageCapabilities)
        ensures
            r == (StageCapabilities { ask_questions: true, subtasks: None, approval: None }),
    {
        StageCapabilities { ask_questions: true, subtasks: None, approval: None }
    }

    /// Subtask production enabled.
    pub fn with_subtasks() -> (r: StageCapabilities)
        ensures
            r == (StageCapabilities {
                ask_questions: false,
                subtasks: Some(SubtaskCapabilities { flow: None, completion_stage: None }),
                approval: None,
            }),
    {
        StageCapabilities {
            ask_questions: false,
            subtasks: Some(SubtaskCapabilities { flow: None, completion_stage: None }),
            approval: None,
        }
    }

    /// Questions and subtasks.
    pub fn all() -> (r: StageCapabilities)
        ensures
            r == (StageCapabilities {
                ask_questions: true,
                subtasks: Some(SubtaskCapabilities { flow: None, completion_stage: None }),
                approval: None,
            }),
    {
        StageCapabilities {
            ask_questions: true,
            subtasks: Some(SubtaskCapabilities { flow: None, completion_stage: None }),
            approval: None,
        }
    }

    /// Approval with the given rejection stage.
    pub fn with_approval(rejection_stage: Option<String>) -> (r: StageCapabilities)
        ensures
            r == (StageCapabilities {
                ask_questions: false,
                subtasks: None,
                approval: Some(ApprovalCapabilities { rejection_stage, reset_session: false }),
            }),
    {
        StageCapabilities {
            ask_questions: false,
            subtasks: None,
            approval: Some(ApprovalCapabilities { rejection_stage, reset_session: false }),
        }
    }

    pub fn produces_subtasks(&self) -> (r: bool)
        ensures
            r == (self.subtasks is Some),
    {
        self.subtasks.is_some()
    }

    /// Flow configured for subtasks.
    pub fn subtask_flow(&self) -> (r: Option<&str>)
        ensures
            match self.subtasks {
                Some(sc) => match sc.flow {
                    Some(f) => r is Some && r.unwrap()@ == f@,
                    None => r is None,
                },
                None => r is None,
            },
    {
        match &self.subtasks {
            Some(sc) => match &sc.flow {
                Some(f) => Some(f.as_str()),
                None => None,
            },
            None => None,
        }
    }

    /// Stage the parent resumes at after subtasks complete.
    pub fn completion_stage(&self) -> (r: Option<&str>)
        ensures
            match self.subtasks {
                Some(sc) => match sc.completion_stage {
                    Some(f) => r is Some && r.unwrap()@ == f@,
                    None => r is None,
                },
                None => r is None,
            },
    {
        match &self.subtasks {
            Some(sc) => match &sc.completion_stage {
                Some(f) => Some(f.as_str()),
                None => None,
            },
            None => None,
        }
    }

    pub fn has_approval(&self) -> (r: bool)
        ensures
            r == (self.approval is Some),
    {
        self.approval.is_some()
    }

    /// Explicit rejection stage.
    pub fn rejection_stage(&self) -> (r: Option<&str>)
        ensures
            match self.approval {
                Some(a) => match a.rejection_stage {
                    Some(f) => r is Some && r.unwrap()@ == f@,
                    None => r is None,
                },
                None => r is None,
            },
    {
        match &self.approval {
            Some(a) => match &a.rejection_stage {
                Some(f) => Some(f.as_str()),
                None => None,
            },
            None => None,
        }
    }

    /// Rejection resets the target stage's session.
    pub fn rejection_resets_session(&self) -> (r: bool)
        ensures
            r == (self.approval matches Some(a) && a.reset_session),
    {
        match &self.approval {
            Some(a) => a.reset_session,
            None => false,
        }
    }

    pub fn duplicate(&self) -> (r: StageCapabilities)
        ensures
            r == *self,
    {
        StageCapabilities {
            ask_questions: self.ask_questions,
            subtasks: match &self.subtasks {
                Some(sc) => Some(SubtaskCapabilities {
                    flow: clone_opt_string(&sc.flow),
                    completion_stage: clone_opt_string(&sc.completion_stage),
                }),
                None => None,
            },
            approval: match &self.approval {
                Some(a) => Some(ApprovalCapabilities {
                    rejection_stage: clone_opt_string(&a.rejection_stage),
                    reset_session: a.reset_session,
                }),
                None => None,
            },
        }
    }
}

impl SubtaskCapabilities {
    /// Builder: set the subtask flow.
    pub fn with_flow(self, flow: &str) -> (r: SubtaskCapabilities)
        ensures
            r.flow matches Some(f) && f@ == flow@,
            r.completion_stage == self.completion_stage,
    {
        SubtaskCapabilities { flow: Some(owned(flow)), ..self }
    }

    /// Builder: set the completion stage.
    pub fn with_completion_stage(self, stage: &str) -> (r: SubtaskCapabilities)
        ensures
            r.completion_stage matches Some(c) && c@ == stage@,
            r.flow == self.flow,
    {
        SubtaskCapabilities { completion_stage: Some(owned(stage)), ..self }
    }
}

/// A script stage's command.
#[derive(Debug, Clone, PartialEq)]
pub struct ScriptStageConfig {
    /// Shell command (`sh -c`).
    pub command: String,
    /// Timeout in seconds (120 by default).
    pub timeout_seconds: u32,
    /// Stage to go to when the script fails; `None` fails the task.
    pub on_failure: Option<String>,
}

impl ScriptStageConfig {
    pub fn new(command: &str) -> (r: ScriptStageConfig)
        ensures
            r.command@ == command@,
            r.timeout_seconds == 120,
            r.on_failure is None,
    {
        ScriptStageConfig { command: owned(command), timeout_seconds: default_script_timeout(), on_failure: None }
    }

    /// Builder: set the timeout.
    pub fn with_timeout(self, seconds: u32) -> (r: ScriptStageConfig)
        ensures
            r == (ScriptStageConfig { timeout_seconds: seconds, ..self }),
    {
        ScriptStageConfig { timeout_seconds: seconds, ..self }
    }

    /// Builder: set the failure stage.
    pub fn with_on_failure(self, stage: &str) -> (r: ScriptStageConfig)
        ensures
            r.on_failure matches Some(s) && s@ == stage@,
            r.command == self.command,
            r.timeout_seconds == self.timeout_seconds,
    {
        ScriptStageConfig { on_failure: Some(owned(stage)), ..self }
    }
}

} // verus!
