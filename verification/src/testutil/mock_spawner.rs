//! A process spawner for tests: records each spawn, hands out fake process
//! ids and session ids, and tracks which fake processes still run.

use std::collections::HashMap;

use vstd::prelude::*;

use crate::text::{dec, owned, push_decimal};
use crate::workflow::adapters::memory::counter_after;
use crate::workflow::ports::WorkflowError;

verus! {

broadcast use vstd::std_specs::hash::group_hash_axioms;

/// What a spawn was asked to run.
pub struct SpawnConfig<'a> {
    /// Command-line arguments.
    pub args: &'a [&'a str],
    /// Working directory.
    pub cwd: &'a str,
    /// Text written to the process's stdin (the prompt).
    pub stdin_content: &'a str,
}

/// A spawned process.
#[derive(Debug, Clone, PartialEq, Eq)]
pub struct SpawnedProcess {
    pub pid: u32,
    /// Agent session id, when one is known.
    pub session_id: Option<String>,
}

/// Record of one spawn call.
#[derive(Debug, Clone, PartialEq, Eq)]
pub struct SpawnCall {
    /// The prompt passed on stdin.
    pub prompt: String,
    /// The working directory.
    pub cwd: String,
    /// Whether this was a resume.
    pub is_resume: bool,
    /// Session resumed, for a resume.
    pub resume_session_id: Option<String>,
}

impl SpawnCall {
    pub fn duplicate(&self) -> (r: SpawnCall)
        ensures
            r == *self,
    {
        SpawnCall {
            prompt: self.prompt.clone(),
            cwd: self.cwd.clone(),
            is_resume: self.is_resume,
            resume_session_id: match &self.resume_session_id {
                Some(s) => Some(s.clone()),
                None => None,
            },
        }
    }
}

/// Whether the process table marks `pid` as running.
pub open spec fn running_in(table: Map<u32, bool>, pid: u32) -> bool {
    table.contains_key(pid) && table[pid]
}

/// The table after marking `pid` with `running`.
pub open spec fn table_set(table: Map<u32, bool>, pid: u32, running: bool) -> Map<u32, bool> {
    table.insert(pid, running)
}

/// Whether `k` occurs among the first `n` entries of `pids`.
pub open spec fn listed_before(pids: Seq<u32>, n: int, k: u32) -> bool {
    exists|j: int| 0 <= j < n && #[trigger] pids[j] == k
}

/// The table with every process marked finished.
pub open spec fn all_finished(table: Map<u32, bool>) -> Map<u32, bool> {
    Map::new(|k: u32| table.contains_key(k), |k: u32| false)
}

/// The fake agent session id of a process.
pub open spec fn mock_session_text(pid: u32) -> Seq<char> {
    "mock-session-"@ + dec(pid as nat)
}

/// A mock of the agent process spawner.
pub struct MockProcessSpawner {
    spawn_calls: Vec<SpawnCall>,
    next_pid: u32,
    processes_running: HashMap<u32, bool>,
}

impl MockProcessSpawner {
    /// The recorded calls, oldest first.
    pub closed spec fn calls(&self) -> Seq<SpawnCall> {
        self.spawn_calls@
    }

    /// The process table: each fake process id with its running flag.
    pub closed spec fn table(&self) -> Map<u32, bool> {
        self.processes_running@
    }

    /// The process id the next spawn gets.
    pub closed spec fn pid_counter(&self) -> u32 {
        self.next_pid
    }

    /// A spawner with no calls; process ids start at 1000.
    pub fn new() -> (r: MockProcessSpawner)
        ensures
            r.calls().len() == 0,
            r.table() == Map::<u32, bool>::empty(),
            r.pid_counter() == 1000,
    {
        MockProcessSpawner { spawn_calls: Vec::new(), next_pid: 1000, processes_running: HashMap::new() }
    }

    /// All recorded calls.
    pub fn get_spawn_calls(&self) -> (r: Vec<SpawnCall>)
        ensures
            r@ == self.calls(),
    {
        let mut out: Vec<SpawnCall> = Vec::new();
        let mut i: usize = 0;
        while i < self.spawn_calls.len()
            invariant
                i <= self.spawn_calls.len(),
                out@ == self.spawn_calls@.take(i as int),
            decreases self.spawn_calls.len() - i,
        {
            out.push(self.spawn_calls[i].duplicate());
            assert(self.spawn_calls@.take(i + 1) =~= self.spawn_calls@.take(i as int).push(self.spawn_calls@[i as int]));
            i = i + 1;
        }
        assert(self.spawn_calls@.take(self.spawn_calls.len() as int) =~= self.spawn_calls@);
        out
    }

    /// The prompts of the recorded calls.
    pub fn get_prompts(&self) -> (r: Vec<String>)
        ensures
            r@.len() == self.calls().len(),
            forall|i: int| 0 <= i < r@.len() ==> #[trigger] r@[i] == self.calls()[i].prompt,
    {
        let mut out: Vec<String> = Vec::new();
        let mut i: usize = 0;
        while i < self.spawn_calls.len()
            invariant
                i <= self.spawn_calls.len(),
                out@.len() == i,
                forall|k: int| 0 <= k < i ==> #[trigger] out@[k] == self.spawn_calls@[k].prompt,
            decreases self.spawn_calls.len() - i,
        {
            out.push(self.spawn_calls[i].prompt.clone());
            i = i + 1;
        }
        out
    }

    /// Number of recorded calls.
    pub fn call_count(&self) -> (r: usize)
        ensures
            r == self.calls().len(),
    {
        self.spawn_calls.len()
    }

    fn set_running(&mut self, pid: u32, running: bool)
        ensures
            final(self).table() == table_set(old(self).table(), pid, running),
            final(self).calls() == old(self).calls(),
            final(self).pid_counter() == old(self).pid_counter(),
    {
        self.processes_running.insert(pid, running);
    }

    /// Marks a process finished.
    pub fn finish_process(&mut self, pid: u32)
        ensures
            final(self).table() == table_set(old(self).table(), pid, false),
            final(self).calls() == old(self).calls(),
            final(self).pid_counter() == old(self).pid_counter(),
    {
        self.set_running(pid, false);
    }

    /// Marks every process finished.
    pub fn finish_all(&mut self)
        ensures
            final(self).table() == all_finished(old(self).table()),
            final(self).calls() == old(self).calls(),
            final(self).pid_counter() == old(self).pid_counter(),
    {
        let ghost dom = self.processes_running@.dom();
        let mut pids: Vec<u32> = Vec::new();
        for pid in it: self.processes_running.keys()
            invariant
                pids@ == it.seq().take(it.index() as int).unref(),
                it.seq().unref().to_set() == dom,
                it.index() == it.seq().len() ==> pids@.to_set() == dom,
        {
            pids.push(*pid);
            assert(it.seq().take(it.index() + 1).unref() =~= it.seq().take(it.index() as int).unref().push(*pid));
            assert(it.seq().take(it.seq().len() as int) =~= it.seq());
        }
        let ghost orig = self.processes_running@;
        let mut i: usize = 0;
        while i < pids.len()
            invariant
                i <= pids.len(),
                pids@.to_set() == orig.dom(),
                self.processes_running@.dom() == orig.dom(),
                forall|k: u32| #[trigger] orig.contains_key(k) ==> self.processes_running@[k] == (if listed_before(pids@, i as int, k) {
                    false
                } else {
                    orig[k]
                }),
                self.spawn_calls@ == old(self).spawn_calls@,
                self.next_pid == old(self).next_pid,
            decreases pids.len() - i,
        {
            assert(pids@.to_set().contains(pids@[i as int]));
            self.processes_running.insert(pids[i], false);
            assert(self.processes_running@.dom() =~= orig.dom());
            assert(listed_before(pids@, i + 1, pids@[i as int]));
            i = i + 1;
        }
        assert forall|k: u32| #[trigger] orig.contains_key(k) implies listed_before(pids@, pids@.len() as int, k) by {
            assert(pids@.to_set().contains(k));
            let j = choose|j: int| 0 <= j < pids@.len() && pids@[j] == k;
            assert(listed_before(pids@, pids@.len() as int, k));
        }
        assert(self.processes_running@ =~= all_finished(old(self).table()));
    }

    /// Forgets the recorded calls.
    pub fn clear_calls(&mut self)
        ensures
            final(self).calls().len() == 0,
            final(self).table() == old(self).table(),
            final(self).pid_counter() == old(self).pid_counter(),
    {
        self.spawn_calls = Vec::new();
    }

    /// The last recorded call.
    pub fn last_call(&self) -> (r: Option<SpawnCall>)
        ensures
            self.calls().len() == 0 ==> r is None,
            self.calls().len() > 0 ==> r == Some(self.calls().last()),
    {
        let n = self.spawn_calls.len();
        if n == 0 {
            None
        } else {
            Some(self.spawn_calls[n - 1].duplicate())
        }
    }

    /// Records a call and starts a fake process; returns its id.
    fn start(&mut self, config: &SpawnConfig, resume_session_id: Option<&str>) -> (pid: u32)
        ensures
            pid == old(self).pid_counter(),
            final(self).pid_counter() == counter_after(old(self).pid_counter()),
            final(self).calls() == old(self).calls().push(
                SpawnCall {
                    prompt: final(self).calls().last().prompt,
                    cwd: final(self).calls().last().cwd,
                    is_resume: resume_session_id is Some,
                    resume_session_id: final(self).calls().last().resume_session_id,
                },
            ),
            final(self).calls().last().prompt@ == config.stdin_content@,
            final(self).calls().last().cwd@ == config.cwd@,
            match resume_session_id {
                Some(s) => final(self).calls().last().resume_session_id matches Some(x) && x@ == s@,
                None => final(self).calls().last().resume_session_id is None,
            },
            final(self).table() == table_set(old(self).table(), pid, true),
    {
        let call = SpawnCall {
            prompt: owned(config.stdin_content),
            cwd: owned(config.cwd),
            is_resume: resume_session_id.is_some(),
            resume_session_id: match resume_session_id {
                Some(s) => Some(owned(s)),
                None => None,
            },
        };
        self.spawn_calls.push(call);
        let pid = self.next_pid;
        self.next_pid = if pid == u32::MAX {
            0
        } else {
            pid + 1
        };
        self.set_running(pid, true);
        pid
    }

    /// Records a spawn and starts a fake process with session `mock-session-<pid>`.
    pub fn spawn(&mut self, config: SpawnConfig) -> (r: Result<SpawnedProcess, WorkflowError>)
        ensures
            r matches Ok(p) && p.pid == old(self).pid_counter() && (p.session_id matches Some(s) && s@
                == mock_session_text(p.pid)),
            final(self).calls().len() == old(self).calls().len() + 1,
            forall|i: int| 0 <= i < old(self).calls().len() ==> final(self).calls()[i] == old(self).calls()[i],
            final(self).calls().last().prompt@ == config.stdin_content@,
            final(self).calls().last().cwd@ == config.cwd@,
            !final(self).calls().last().is_resume,
            final(self).calls().last().resume_session_id is None,
            final(self).pid_counter() == counter_after(old(self).pid_counter()),
            final(self).table() == table_set(old(self).table(), old(self).pid_counter(), true),
    {
        let pid = self.start(&config, None);
        let mut session = owned("mock-session-");
        push_decimal(&mut session, pid as u64);
        Ok(SpawnedProcess { pid, session_id: Some(session) })
    }

    /// Same as [`MockProcessSpawner::spawn`]; the timeout is not used.
    pub fn spawn_and_wait_for_session(&mut self, config: SpawnConfig, timeout_secs: u64) -> (r: Result<
        SpawnedProcess,
        WorkflowError,
    >)
        ensures
            r matches Ok(p) && p.pid == old(self).pid_counter() && (p.session_id matches Some(s) && s@
                == mock_session_text(p.pid)),
            final(self).calls().len() == old(self).calls().len() + 1,
            forall|i: int| 0 <= i < old(self).calls().len() ==> final(self).calls()[i] == old(self).calls()[i],
            final(self).calls().last().prompt@ == config.stdin_content@,
            final(self).calls().last().cwd@ == config.cwd@,
            !final(self).calls().last().is_resume,
            final(self).calls().last().resume_session_id is None,
            final(self).pid_counter() == counter_after(old(self).pid_counter()),
            final(self).table() == table_set(old(self).table(), old(self).pid_counter(), true),
    {
        self.spawn(config)
    }

    /// Records a resume of `session_id` and starts a fake process in it.
    pub fn resume(&mut self, session_id: &str, config: SpawnConfig) -> (r: Result<SpawnedProcess, WorkflowError>)
        ensures
            r matches Ok(p) && p.pid == old(self).pid_counter() && (p.session_id matches Some(s) && s@
                == session_id@),
            final(self).calls().len() == old(self).calls().len() + 1,
            forall|i: int| 0 <= i < old(self).calls().len() ==> final(self).calls()[i] == old(self).calls()[i],
            final(self).calls().last().prompt@ == config.stdin_content@,
            final(self).calls().last().cwd@ == config.cwd@,
            final(self).calls().last().is_resume,
            final(self).calls().last().resume_session_id matches Some(s) && s@ == session_id@,
            final(self).pid_counter() == counter_after(old(self).pid_counter()),
            final(self).table() == table_set(old(self).table(), old(self).pid_counter(), true),
    {
        let pid = self.start(&config, Some(session_id));
        Ok(SpawnedProcess { pid, session_id: Some(owned(session_id)) })
    }

    /// Whether a fake process still runs.
    pub fn is_running(&self, pid: u32) -> (r: bool)
        ensures
            r == running_in(self.table(), pid),
    {
        match self.processes_running.get(&pid) {
            Some(b) => *b,
            None => false,
        }
    }
}

impl Default for MockProcessSpawner {
    fn default() -> (r: MockProcessSpawner)
        ensures
            r.calls().len() == 0,
            r.table() == Map::<u32, bool>::empty(),
            r.pid_counter() == 1000,
    {
        MockProcessSpawner::new()
    }
}

/// A process just marked running (or finished) is reported so.
pub proof fn law_started_process_runs(table: Map<u32, bool>, pid: u32, running: bool)
    ensures
        running_in(table_set(table, pid, running), pid) == running,
{
}

/// Marking one process leaves what is reported of every other unchanged.
pub proof fn law_other_processes_unchanged(table: Map<u32, bool>, pid: u32, running: bool, other: u32)
    requires
        other != pid,
    ensures
        running_in(table_set(table, pid, running), other) == running_in(table, other),
{
}

/// After every process is finished, none is reported running.
pub proof fn law_all_finished(table: Map<u32, bool>, pid: u32)
    ensures
        !running_in(all_finished(table), pid),
{
}

} // verus!
