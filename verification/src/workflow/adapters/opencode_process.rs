//! The spawner of `OpenCode` CLI processes (the spawning itself is done by
//! the application).

use vstd::prelude::*;

use crate::text::{owned, strings_view};

verus! {

/// Spawner for `opencode run` processes.
#[derive(Debug, Clone, Copy, PartialEq, Eq, Structural)]
pub struct OpenCodeProcessSpawner;

/// Arguments of an `opencode` process: non-interactive `run`, the session
/// (`--continue` when resuming, `--session` otherwise), the model when one is
/// given, and JSON event output.
pub open spec fn opencode_args(session_id: Option<Seq<char>>, is_resume: bool, model: Option<Seq<char>>) -> Seq<
    Seq<char>,
> {
    let session = match session_id {
        Some(sid) => if is_resume {
            seq!["--continue"@, sid]
        } else {
            seq!["--session"@, sid]
        },
        None => Seq::empty(),
    };
    let model_args = match model {
        Some(m) => seq!["--model"@, m],
        None => Seq::empty(),
    };
    seq!["run"@] + session + model_args + seq!["--format"@, "json"@]
}

pub open spec fn opt_view(o: Option<&str>) -> Option<Seq<char>> {
    match o {
        Some(s) => Some(s@),
        None => None,
    }
}

impl OpenCodeProcessSpawner {
    pub fn new() -> (r: OpenCodeProcessSpawner)
        ensures
            r == OpenCodeProcessSpawner,
    {
        OpenCodeProcessSpawner
    }

    /// The arguments the spawned `opencode` process gets.
    pub fn run_args(&self, session_id: Option<&str>, is_resume: bool, model: Option<&str>) -> (r: Vec<String>)
        ensures
            strings_view(r@) == opencode_args(opt_view(session_id), is_resume, opt_view(model)),
    {
        let mut args: Vec<String> = Vec::new();
        args.push(owned("run"));
        if let Some(sid) = session_id {
            if is_resume {
                args.push(owned("--continue"));
            } else {
                args.push(owned("--session"));
            }
            args.push(owned(sid));
        }
        if let Some(m) = model {
            args.push(owned("--model"));
            args.push(owned(m));
        }
        args.push(owned("--format"));
        args.push(owned("json"));
        assert(strings_view(args@) =~= opencode_args(opt_view(session_id), is_resume, opt_view(model)));
        args
    }
}

impl Default for OpenCodeProcessSpawner {
    fn default() -> (r: OpenCodeProcessSpawner)
        ensures
            r == OpenCodeProcessSpawner,
    {
        OpenCodeProcessSpawner::new()
    }
}

} // verus!
