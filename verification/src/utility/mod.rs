//! Lightweight single-turn AI tasks (titles, commit messages): the runner's
//! settings and its errors.

use vstd::prelude::*;

use crate::text::{owned, push_str, strings_view};

pub mod json;

verus! {

/// Why a utility task failed.
#[derive(Debug, Clone, PartialEq, Eq)]
pub enum UtilityError {
    /// The process could not be spawned.
    SpawnFailed(String),
    /// Communication with the process failed.
    IoError(String),
    /// The task timed out.
    Timeout,
    /// The output did not parse.
    ParseError(String),
    /// The schema is invalid.
    SchemaError(String),
    /// The output does not match the schema.
    ValidationFailed(String),
    /// No task has this name.
    TaskNotFound(String),
}

/// How an error reads.
pub open spec fn utility_error_text(e: UtilityError) -> Seq<char> {
    match e {
        UtilityError::SpawnFailed(m) => "Failed to spawn process: "@ + m@,
        UtilityError::IoError(m) => "I/O error: "@ + m@,
        UtilityError::Timeout => "Task timed out"@,
        UtilityError::ParseError(m) => "Parse error: "@ + m@,
        UtilityError::SchemaError(m) => "Schema error: "@ + m@,
        UtilityError::ValidationFailed(m) => "Validation failed: "@ + m@,
        UtilityError::TaskNotFound(n) => "Task not found: "@ + n@,
    }
}

impl UtilityError {
    /// The error as text.
    pub fn to_string(&self) -> (r: String)
        ensures
            r@ == utility_error_text(*self),
    {
        let (prefix, detail) = match self {
            UtilityError::SpawnFailed(m) => ("Failed to spawn process: ", m.as_str()),
            UtilityError::IoError(m) => ("I/O error: ", m.as_str()),
            UtilityError::Timeout => {
                return owned("Task timed out");
            },
            UtilityError::ParseError(m) => ("Parse error: ", m.as_str()),
            UtilityError::SchemaError(m) => ("Schema error: ", m.as_str()),
            UtilityError::ValidationFailed(m) => ("Validation failed: ", m.as_str()),
            UtilityError::TaskNotFound(n) => ("Task not found: ", n.as_str()),
        };
        let mut s = owned(prefix);
        push_str(&mut s, detail);
        s
    }
}

/// Runs utility tasks: the model and the timeout to use.
pub struct UtilityRunner {
    timeout_secs: u64,
    model: String,
}

impl UtilityRunner {
    /// The timeout in seconds.
    pub closed spec fn spec_timeout(&self) -> u64 {
        self.timeout_secs
    }

    /// The model.
    pub closed spec fn spec_model(&self) -> Seq<char> {
        self.model@
    }

    /// A runner with a 30 second timeout using `haiku`.
    pub fn new() -> (r: UtilityRunner)
        ensures
            r.spec_timeout() == 30,
            r.spec_model() == "haiku"@,
    {
        UtilityRunner { timeout_secs: 30, model: owned("haiku") }
    }

    /// Builder: set the timeout.
    pub fn with_timeout(self, secs: u64) -> (r: UtilityRunner)
        ensures
            r.spec_timeout() == secs,
            r.spec_model() == self.spec_model(),
    {
        UtilityRunner { timeout_secs: secs, ..self }
    }

    /// Builder: set the model.
    pub fn with_model(self, model: &str) -> (r: UtilityRunner)
        ensures
            r.spec_timeout() == self.spec_timeout(),
            r.spec_model() == model@,
    {
        UtilityRunner { model: owned(model), ..self }
    }

    /// The timeout in seconds.
    pub fn timeout_secs(&self) -> (r: u64)
        ensures
            r == self.spec_timeout(),
    {
        self.timeout_secs
    }

    /// The model.
    pub fn model(&self) -> (r: &str)
        ensures
            r@ == self.spec_model(),
    {
        self.model.as_str()
    }

    /// Arguments of the agent process that runs a task: the runner's model,
    /// single-turn printing, JSON output checked against `schema`.
    pub fn process_args(&self, schema: &str) -> (r: Vec<String>)
        ensures
            strings_view(r@) == seq![
                "--model"@,
                self.spec_model(),
                "--print"@,
                "--output-format"@,
                "json"@,
                "--json-schema"@,
                schema@,
            ],
    {
        let args = vec![
            owned("--model"),
            owned(self.model.as_str()),
            owned("--print"),
            owned("--output-format"),
            owned("json"),
            owned("--json-schema"),
            owned(schema),
        ];
        assert(strings_view(args@) =~= seq![
            "--model"@,
            self.spec_model(),
            "--print"@,
            "--output-format"@,
            "json"@,
            "--json-schema"@,
            schema@,
        ]);
        args
    }
}

impl Default for UtilityRunner {
    fn default() -> (r: UtilityRunner)
        ensures
            r.spec_timeout() == 30,
            r.spec_model() == "haiku"@,
    {
        UtilityRunner::new()
    }
}

} // verus!
