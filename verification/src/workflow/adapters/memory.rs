//! An in-memory workflow store: tasks, iterations and stage sessions kept in
//! vectors, answering queries the way the persistent store does.

use vstd::prelude::*;

use crate::text::{dec_padded, lemma_dec_padded_injective, push_padded_decimal, push_str, str_eq, str_lt, text_le, text_lt};
use crate::workflow::domain::iteration::{same_iteration, Iteration};
use crate::workflow::domain::log_entry::LogEntry;
use crate::workflow::domain::sorting::{keep, lemma_insert_ordered_at, lemma_keep_all, sort_ordered};
use crate::workflow::domain::stage_session::StageSession;
use crate::workflow::config::workflow::opt_str;
use crate::workflow::domain::task::{same_task, Task};
use crate::workflow::ports::WorkflowError;

verus! {

// ---------------------------------------------------------------------------
// Spec vocabulary
// ---------------------------------------------------------------------------

/// Position of the first element of `s` that satisfies `p`.
pub open spec fn first_where<T>(s: Seq<T>, p: spec_fn(T) -> bool) -> Option<int> {
    if exists|i: int| 0 <= i < s.len() && #[trigger] p(s[i]) {
        Some(choose|i: int| 0 <= i < s.len() && p(s[i]) && forall|j: int| 0 <= j < i ==> !p(#[trigger] s[j]))
    } else {
        None
    }
}

pub proof fn lemma_first_where<T>(s: Seq<T>, p: spec_fn(T) -> bool, i: int)
    requires
        0 <= i < s.len(),
        p(s[i]),
        forall|j: int| 0 <= j < i ==> !p(#[trigger] s[j]),
    ensures
        first_where(s, p) == Some(i),
{
    let k = choose|k: int| 0 <= k < s.len() && p(s[k]) && forall|j: int| 0 <= j < k ==> !p(#[trigger] s[j]);
    assert(0 <= k < s.len() && p(s[k]));
    if k < i {
        assert(!p(s[k]));
    } else if k > i {
        assert(!p(s[i]));
    }
}

proof fn lemma_min_witness<T>(s: Seq<T>, p: spec_fn(T) -> bool, k: int)
    requires
        0 <= k < s.len(),
        p(s[k]),
    ensures
        exists|i: int| 0 <= i < s.len() && p(s[i]) && forall|j: int| 0 <= j < i ==> !p(#[trigger] s[j]),
    decreases k,
{
    if exists|j: int| 0 <= j < k && #[trigger] p(s[j]) {
        let j = choose|j: int| 0 <= j < k && #[trigger] p(s[j]);
        lemma_min_witness(s, p, j);
    } else {
        assert(forall|j: int| 0 <= j < k ==> !p(#[trigger] s[j]));
    }
}

/// What `first_where` finds satisfies the predicate, and nothing before it does.
pub proof fn lemma_first_where_props<T>(s: Seq<T>, p: spec_fn(T) -> bool)
    ensures
        match first_where(s, p) {
            Some(i) => 0 <= i < s.len() && p(s[i]) && forall|j: int| 0 <= j < i ==> !p(#[trigger] s[j]),
            None => forall|j: int| 0 <= j < s.len() ==> !p(#[trigger] s[j]),
        },
{
    if exists|i: int| 0 <= i < s.len() && #[trigger] p(s[i]) {
        let w = choose|i: int| 0 <= i < s.len() && #[trigger] p(s[i]);
        lemma_min_witness(s, p, w);
    }
}

pub open spec fn task_with_id(id: Seq<char>) -> spec_fn(Task) -> bool {
    |t: Task| t.id@ == id
}

pub open spec fn child_of(parent: Seq<char>) -> spec_fn(Task) -> bool {
    |t: Task| t.parent_id matches Some(p) && p@ == parent
}

/// Tasks in creation order.
pub open spec fn created_order() -> spec_fn(Task, Task) -> bool {
    |a: Task, b: Task| text_le(a.created_at@, b.created_at@)
}

pub open spec fn iteration_with_id(id: Seq<char>) -> spec_fn(Iteration) -> bool {
    |i: Iteration| i.id@ == id
}

/// Iterations of a task (when given), in a stage (when given), only active
/// ones when `active_only`.
pub open spec fn iteration_filter(task_id: Option<Seq<char>>, stage: Option<Seq<char>>, active_only: bool) -> spec_fn(Iteration) -> bool {
    |i: Iteration|
        (match task_id {
            Some(t) => i.task_id@ == t,
            None => true,
        }) && (match stage {
            Some(s) => i.stage@ == s,
            None => true,
        }) && (!active_only || i.ended_at is None)
}

pub open spec fn not_of_task(task_id: Seq<char>) -> spec_fn(Iteration) -> bool {
    |i: Iteration| i.task_id@ != task_id
}

/// The orders the store lists iterations in.
#[derive(Clone, Copy, PartialEq, Eq, Structural)]
pub enum IterationOrder {
    /// By iteration number.
    Number,
    /// By stage, then iteration number.
    StageNumber,
    /// By task, then stage, then iteration number.
    TaskStageNumber,
}

pub open spec fn number_le(a: Iteration, b: Iteration) -> bool {
    a.iteration_number <= b.iteration_number
}

pub open spec fn stage_number_le(a: Iteration, b: Iteration) -> bool {
    text_lt(a.stage@, b.stage@) || (a.stage@ == b.stage@ && number_le(a, b))
}

pub open spec fn task_stage_number_le(a: Iteration, b: Iteration) -> bool {
    text_lt(a.task_id@, b.task_id@) || (a.task_id@ == b.task_id@ && stage_number_le(a, b))
}

pub open spec fn iteration_order(o: IterationOrder) -> spec_fn(Iteration, Iteration) -> bool {
    match o {
        IterationOrder::Number => |a: Iteration, b: Iteration| number_le(a, b),
        IterationOrder::StageNumber => |a: Iteration, b: Iteration| stage_number_le(a, b),
        IterationOrder::TaskStageNumber => |a: Iteration, b: Iteration| task_stage_number_le(a, b),
    }
}

/// The iteration with the highest number, the last one among equals.
pub open spec fn latest_of(s: Seq<Iteration>) -> Option<Iteration>
    decreases s.len(),
{
    if s.len() == 0 {
        None
    } else {
        match latest_of(s.drop_last()) {
            Some(m) => if s.last().iteration_number >= m.iteration_number {
                Some(s.last())
            } else {
                Some(m)
            },
            None => Some(s.last()),
        }
    }
}

pub open spec fn session_with_id(id: Seq<char>) -> spec_fn(StageSession) -> bool {
    |s: StageSession| s.id@ == id
}

pub open spec fn session_in(task_id: Seq<char>, stage: Seq<char>) -> spec_fn(StageSession) -> bool {
    |s: StageSession| s.task_id@ == task_id && s.stage@ == stage
}

pub open spec fn session_not_of(task_id: Seq<char>) -> spec_fn(StageSession) -> bool {
    |s: StageSession| s.task_id@ != task_id
}

/// Sessions of a task (when given) with an agent process (when `with_pid`).
pub open spec fn session_filter(task_id: Option<Seq<char>>, with_pid: bool) -> spec_fn(StageSession) -> bool {
    |s: StageSession|
        (match task_id {
            Some(t) => s.task_id@ == t,
            None => true,
        }) && (!with_pid || s.agent_pid is Some)
}

/// Sessions by task, then creation time.
pub open spec fn task_created_order() -> spec_fn(StageSession, StageSession) -> bool {
    |a: StageSession, b: StageSession|
        text_lt(a.task_id@, b.task_id@) || (a.task_id@ == b.task_id@ && text_le(a.created_at@, b.created_at@))
}

/// `new` holds `t` in place of the first task with its id, or `t` appended.
pub open spec fn task_saved(old_s: Seq<Task>, new_s: Seq<Task>, t: Task) -> bool {
    match first_where(old_s, task_with_id(t.id@)) {
        Some(i) => {
            &&& new_s.len() == old_s.len()
            &&& same_task(new_s[i], t)
            &&& forall|j: int| 0 <= j < old_s.len() && j != i ==> new_s[j] == old_s[j]
        },
        None => {
            &&& new_s.len() == old_s.len() + 1
            &&& same_task(new_s[old_s.len() as int], t)
            &&& forall|j: int| 0 <= j < old_s.len() ==> new_s[j] == old_s[j]
        },
    }
}

/// `new` holds `it` in place of the first iteration with its id, or `it` appended.
pub open spec fn iteration_saved(old_s: Seq<Iteration>, new_s: Seq<Iteration>, it: Iteration) -> bool {
    match first_where(old_s, iteration_with_id(it.id@)) {
        Some(i) => {
            &&& new_s.len() == old_s.len()
            &&& same_iteration(new_s[i], it)
            &&& forall|j: int| 0 <= j < old_s.len() && j != i ==> new_s[j] == old_s[j]
        },
        None => {
            &&& new_s.len() == old_s.len() + 1
            &&& same_iteration(new_s[old_s.len() as int], it)
            &&& forall|j: int| 0 <= j < old_s.len() ==> new_s[j] == old_s[j]
        },
    }
}

/// The session list after saving `s`: it replaces the first session with its
/// id, or is appended.
pub open spec fn sessions_after_save(old_s: Seq<StageSession>, s: StageSession) -> Seq<StageSession> {
    match first_where(old_s, session_with_id(s.id@)) {
        Some(i) => old_s.update(i, s),
        None => old_s.push(s),
    }
}

/// Task ids the store hands out: `task-001`, `task-002`, ...
pub open spec fn task_id_text(n: nat) -> Seq<char> {
    "task-"@ + dec_padded(n, 3)
}

/// The id counter after one id was handed out (it wraps like a `u32`).
pub open spec fn counter_after(n: u32) -> u32 {
    if n == u32::MAX {
        0
    } else {
        (n + 1) as u32
    }
}

/// Tasks behind references.
pub open spec fn task_values(v: Seq<&Task>) -> Seq<Task> {
    Seq::new(v.len(), |i: int| *v[i])
}

pub open spec fn iteration_values(v: Seq<&Iteration>) -> Seq<Iteration> {
    Seq::new(v.len(), |i: int| *v[i])
}

/// Element-wise copies of tasks.
pub open spec fn copies_of_tasks(r: Seq<Task>, s: Seq<Task>) -> bool {
    r.len() == s.len() && forall|i: int| 0 <= i < s.len() ==> same_task(#[trigger] r[i], s[i])
}

pub open spec fn copies_of_iterations(r: Seq<Iteration>, s: Seq<Iteration>) -> bool {
    r.len() == s.len() && forall|i: int| 0 <= i < s.len() ==> same_iteration(#[trigger] r[i], s[i])
}

// ---------------------------------------------------------------------------
// Executable helpers
// ---------------------------------------------------------------------------

/// Whether `a` was created no later than `b`.
fn created_le(a: &Task, b: &Task) -> (r: bool)
    ensures
        r == (created_order())(*a, *b),
{
    str_eq(a.created_at.as_str(), b.created_at.as_str()) || str_lt(a.created_at.as_str(), b.created_at.as_str())
}

/// Stable sort of task references by creation time.
pub(crate) fn sort_tasks(v: Vec<&Task>) -> (r: Vec<&Task>)
    ensures
        task_values(r@) == sort_ordered(task_values(v@), created_order()),
{
    let mut out: Vec<&Task> = Vec::new();
    let mut i: usize = 0;
    assert(task_values(v@).take(0) =~= Seq::<Task>::empty());
    assert(task_values(out@) =~= Seq::<Task>::empty());
    while i < v.len()
        invariant
            i <= v.len(),
            task_values(out@) == sort_ordered(task_values(v@).take(i as int), created_order()),
        decreases v.len() - i,
    {
        let ghost all = task_values(v@);
        assert(all.take(i + 1).drop_last() =~= all.take(i as int));
        assert(all.take(i + 1).last() == *v@[i as int]);
        let x = v[i];
        let mut pos = out.len();
        while pos > 0 && !created_le(out[pos - 1], x)
            invariant
                pos <= out.len(),
                forall|j: int| pos <= j < out.len() ==> !(created_order())(#[trigger] task_values(out@)[j], *x),
            decreases pos,
        {
            pos = pos - 1;
        }
        proof {
            lemma_insert_ordered_at(task_values(out@), *x, created_order(), pos as int);
        }
        let ghost before = task_values(out@);
        out.insert(pos, x);
        assert(task_values(out@) =~= before.insert(pos as int, *x));
        i = i + 1;
    }
    assert(task_values(v@).take(v.len() as int) =~= task_values(v@));
    out
}

/// Copies of the referenced tasks.
pub(crate) fn copy_tasks(v: &Vec<&Task>) -> (r: Vec<Task>)
    ensures
        copies_of_tasks(r@, task_values(v@)),
{
    let mut out: Vec<Task> = Vec::new();
    let mut i: usize = 0;
    while i < v.len()
        invariant
            i <= v.len(),
            out@.len() == i,
            forall|k: int| 0 <= k < i ==> same_task(#[trigger] out@[k], *v@[k]),
        decreases v.len() - i,
    {
        out.push(v[i].duplicate());
        i = i + 1;
    }
    out
}

fn iteration_le(order: IterationOrder, a: &Iteration, b: &Iteration) -> (r: bool)
    ensures
        r == (iteration_order(order))(*a, *b),
{
    let numbers = a.iteration_number <= b.iteration_number;
    match order {
        IterationOrder::Number => numbers,
        IterationOrder::StageNumber => str_lt(a.stage.as_str(), b.stage.as_str()) || (str_eq(
            a.stage.as_str(),
            b.stage.as_str(),
        ) && numbers),
        IterationOrder::TaskStageNumber => {
            let stage_number = str_lt(a.stage.as_str(), b.stage.as_str()) || (str_eq(
                a.stage.as_str(),
                b.stage.as_str(),
            ) && numbers);
            str_lt(a.task_id.as_str(), b.task_id.as_str()) || (str_eq(a.task_id.as_str(), b.task_id.as_str())
                && stage_number)
        },
    }
}

/// Stable sort of iteration references by one of the store's orders.
fn sort_iterations(v: Vec<&Iteration>, order: IterationOrder) -> (r: Vec<&Iteration>)
    ensures
        iteration_values(r@) == sort_ordered(iteration_values(v@), iteration_order(order)),
{
    let mut out: Vec<&Iteration> = Vec::new();
    let mut i: usize = 0;
    assert(iteration_values(v@).take(0) =~= Seq::<Iteration>::empty());
    assert(iteration_values(out@) =~= Seq::<Iteration>::empty());
    while i < v.len()
        invariant
            i <= v.len(),
            iteration_values(out@) == sort_ordered(iteration_values(v@).take(i as int), iteration_order(order)),
        decreases v.len() - i,
    {
        let ghost all = iteration_values(v@);
        assert(all.take(i + 1).drop_last() =~= all.take(i as int));
        assert(all.take(i + 1).last() == *v@[i as int]);
        let x = v[i];
        let mut pos = out.len();
        while pos > 0 && !iteration_le(order, out[pos - 1], x)
            invariant
                pos <= out.len(),
                forall|j: int| pos <= j < out.len() ==> !(iteration_order(order))(#[trigger] iteration_values(out@)[j], *x),
            decreases pos,
        {
            pos = pos - 1;
        }
        proof {
            lemma_insert_ordered_at(iteration_values(out@), *x, iteration_order(order), pos as int);
        }
        let ghost before = iteration_values(out@);
        out.insert(pos, x);
        assert(iteration_values(out@) =~= before.insert(pos as int, *x));
        i = i + 1;
    }
    assert(iteration_values(v@).take(v.len() as int) =~= iteration_values(v@));
    out
}

/// Copies of the referenced iterations.
fn copy_iterations(v: &Vec<&Iteration>) -> (r: Vec<Iteration>)
    ensures
        copies_of_iterations(r@, iteration_values(v@)),
{
    let mut out: Vec<Iteration> = Vec::new();
    let mut i: usize = 0;
    while i < v.len()
        invariant
            i <= v.len(),
            out@.len() == i,
            forall|k: int| 0 <= k < i ==> same_iteration(#[trigger] out@[k], *v@[k]),
        decreases v.len() - i,
    {
        out.push(v[i].duplicate());
        i = i + 1;
    }
    out
}

fn session_le(a: &StageSession, b: &StageSession) -> (r: bool)
    ensures
        r == (task_created_order())(*a, *b),
{
    str_lt(a.task_id.as_str(), b.task_id.as_str()) || (str_eq(a.task_id.as_str(), b.task_id.as_str()) && (str_eq(
        a.created_at.as_str(),
        b.created_at.as_str(),
    ) || str_lt(a.created_at.as_str(), b.created_at.as_str())))
}

/// Stable sort of sessions by task, then creation time.
fn sort_sessions(v: Vec<StageSession>) -> (r: Vec<StageSession>)
    ensures
        r@ == sort_ordered(v@, task_created_order()),
{
    let mut out: Vec<StageSession> = Vec::new();
    let mut i: usize = 0;
    assert(v@.take(0) =~= Seq::<StageSession>::empty());
    while i < v.len()
        invariant
            i <= v.len(),
            out@ == sort_ordered(v@.take(i as int), task_created_order()),
        decreases v.len() - i,
    {
        assert(v@.take(i + 1).drop_last() =~= v@.take(i as int));
        assert(v@.take(i + 1).last() == v@[i as int]);
        let x = v[i].duplicate();
        let mut pos = out.len();
        while pos > 0 && !session_le(&out[pos - 1], &x)
            invariant
                pos <= out.len(),
                forall|j: int| pos <= j < out.len() ==> !(task_created_order())(#[trigger] out@[j], x),
            decreases pos,
        {
            pos = pos - 1;
        }
        proof {
            lemma_insert_ordered_at(out@, x, task_created_order(), pos as int);
        }
        out.insert(pos, x);
        i = i + 1;
    }
    assert(v@.take(v.len() as int) =~= v@);
    out
}

// ---------------------------------------------------------------------------
// The store
// ---------------------------------------------------------------------------

/// An entry of a stage session's log, with the iteration it was written in.
#[derive(Debug)]
pub struct SessionLogEntry {
    pub session_id: String,
    pub iteration_id: Option<String>,
    pub entry: LogEntry,
}

/// The entries of `logs` written to the session `session_id`, in order.
pub open spec fn session_entries(logs: Seq<SessionLogEntry>, session_id: Seq<char>) -> Seq<LogEntry>
    decreases logs.len(),
{
    if logs.len() == 0 {
        Seq::empty()
    } else if logs.last().session_id@ == session_id {
        session_entries(logs.drop_last(), session_id).push(logs.last().entry)
    } else {
        session_entries(logs.drop_last(), session_id)
    }
}

/// A workflow store held in memory, for tests and development.
pub struct InMemoryWorkflowStore {
    tasks: Vec<Task>,
    iterations: Vec<Iteration>,
    stage_sessions: Vec<StageSession>,
    logs: Vec<SessionLogEntry>,
    next_id: u32,
}

impl InMemoryWorkflowStore {
    /// The stored tasks, in the order they were first saved.
    pub closed spec fn stored_tasks(&self) -> Seq<Task> {
        self.tasks@
    }

    /// The stored iterations, in the order they were first saved.
    pub closed spec fn stored_iterations(&self) -> Seq<Iteration> {
        self.iterations@
    }

    /// The stored stage sessions, in the order they were first saved.
    pub closed spec fn stored_sessions(&self) -> Seq<StageSession> {
        self.stage_sessions@
    }

    /// The number the next task id will carry.
    pub closed spec fn id_counter(&self) -> u32 {
        self.next_id
    }

    /// The session log entries, in the order they were written.
    pub closed spec fn stored_logs(&self) -> Seq<SessionLogEntry> {
        self.logs@
    }

    /// Writes an entry to a session's log.
    pub fn append_log_entry(&mut self, session_id: &str, entry: LogEntry, iteration_id: Option<&str>) -> (r: Result<
        (),
        WorkflowError,
    >)
        ensures
            r is Ok,
            final(self).stored_logs().len() == old(self).stored_logs().len() + 1,
            final(self).stored_logs().drop_last() == old(self).stored_logs(),
            final(self).stored_logs().last().session_id@ == session_id@,
            final(self).stored_logs().last().entry == entry,
            (match final(self).stored_logs().last().iteration_id {
                Some(x) => Some(x@),
                None => None,
            }) == opt_str(iteration_id),
            final(self).stored_tasks() == old(self).stored_tasks(),
            final(self).stored_iterations() == old(self).stored_iterations(),
            final(self).stored_sessions() == old(self).stored_sessions(),
            final(self).id_counter() == old(self).id_counter(),
    {
        let iteration_id = match iteration_id {
            Some(x) => Some(crate::text::owned(x)),
            None => None,
        };
        let ghost before = self.logs@;
        self.logs.push(SessionLogEntry { session_id: crate::text::owned(session_id), iteration_id, entry });
        assert(self.logs@.drop_last() =~= before);
        Ok(())
    }

    /// The entries of a session's log, in the order they were written.
    pub fn get_log_entries(&self, session_id: &str) -> (r: Result<Vec<&LogEntry>, WorkflowError>)
        ensures
            r matches Ok(v) && v@.map_values(|e: &LogEntry| *e) == session_entries(self.stored_logs(), session_id@),
    {
        let mut out: Vec<&LogEntry> = Vec::new();
        let mut i: usize = 0;
        assert(self.logs@.take(0) =~= Seq::<SessionLogEntry>::empty());
        assert(out@.map_values(|e: &LogEntry| *e) =~= Seq::<LogEntry>::empty());
        while i < self.logs.len()
            invariant
                i <= self.logs.len(),
                out@.map_values(|e: &LogEntry| *e) == session_entries(self.logs@.take(i as int), session_id@),
            decreases self.logs.len() - i,
        {
            assert(self.logs@.take(i + 1).drop_last() =~= self.logs@.take(i as int));
            assert(self.logs@.take(i + 1).last() == self.logs@[i as int]);
            let l = &self.logs[i];
            if str_eq(l.session_id.as_str(), session_id) {
                let ghost before = out@.map_values(|e: &LogEntry| *e);
                out.push(&l.entry);
                assert(out@.map_values(|e: &LogEntry| *e) =~= before.push(l.entry));
            }
            i = i + 1;
        }
        assert(self.logs@.take(self.logs.len() as int) =~= self.logs@);
        Ok(out)
    }

    /// An empty store; task ids start at 1.
    pub fn new() -> (r: InMemoryWorkflowStore)
        ensures
            r.stored_tasks().len() == 0,
            r.stored_iterations().len() == 0,
            r.stored_sessions().len() == 0,
            r.stored_logs().len() == 0,
            r.id_counter() == 1,
    {
        InMemoryWorkflowStore {
            tasks: Vec::new(),
            iterations: Vec::new(),
            stage_sessions: Vec::new(),
            logs: Vec::new(),
            next_id: 1,
        }
    }

    fn task_index(&self, id: &str) -> (r: Option<usize>)
        ensures
            match r {
                Some(k) => first_where(self.stored_tasks(), task_with_id(id@)) == Some(k as int)
                    && k < self.stored_tasks().len(),
                None => first_where(self.stored_tasks(), task_with_id(id@)) is None,
            },
    {
        let mut i: usize = 0;
        while i < self.tasks.len()
            invariant
                i <= self.tasks.len(),
                forall|j: int| 0 <= j < i ==> !(task_with_id(id@))(#[trigger] self.tasks@[j]),
            decreases self.tasks.len() - i,
        {
            if str_eq(self.tasks[i].id.as_str(), id) {
                proof {
                    lemma_first_where(self.tasks@, task_with_id(id@), i as int);
                }
                return Some(i);
            }
            i = i + 1;
        }
        None
    }

    /// The task with the given id.
    pub fn get_task(&self, id: &str) -> (r: Result<Option<Task>, WorkflowError>)
        ensures
            match first_where(self.stored_tasks(), task_with_id(id@)) {
                Some(i) => r matches Ok(Some(t)) && same_task(t, self.stored_tasks()[i]),
                None => r matches Ok(None),
            },
    {
        match self.task_index(id) {
            Some(i) => Ok(Some(self.tasks[i].duplicate())),
            None => Ok(None),
        }
    }

    /// Stores a copy of `task`, replacing the task with the same id.
    pub fn save_task(&mut self, task: &Task) -> (r: Result<(), WorkflowError>)
        ensures
            r is Ok,
            task_saved(old(self).stored_tasks(), final(self).stored_tasks(), *task),
            final(self).stored_iterations() == old(self).stored_iterations(),
            final(self).stored_sessions() == old(self).stored_sessions(),
            final(self).id_counter() == old(self).id_counter(),
            final(self).stored_logs() == old(self).stored_logs(),
    {
        match self.task_index(task.id.as_str()) {
            Some(i) => {
                self.tasks.set(i, task.duplicate());
            },
            None => {
                self.tasks.push(task.duplicate());
            },
        }
        Ok(())
    }

    /// All tasks, oldest first (ties keep their stored order).
    pub fn list_tasks(&self) -> (r: Result<Vec<Task>, WorkflowError>)
        ensures
            r matches Ok(v) && copies_of_tasks(v@, sort_ordered(self.stored_tasks(), created_order())),
    {
        let mut refs: Vec<&Task> = Vec::new();
        let mut i: usize = 0;
        while i < self.tasks.len()
            invariant
                i <= self.tasks.len(),
                task_values(refs@) == self.tasks@.take(i as int),
            decreases self.tasks.len() - i,
        {
            let ghost before = task_values(refs@);
            refs.push(&self.tasks[i]);
            assert(task_values(refs@) =~= before.push(self.tasks@[i as int]));
            assert(self.tasks@.take(i + 1) =~= self.tasks@.take(i as int).push(self.tasks@[i as int]));
            i = i + 1;
        }
        assert(self.tasks@.take(self.tasks.len() as int) =~= self.tasks@);
        let sorted = sort_tasks(refs);
        Ok(copy_tasks(&sorted))
    }

    /// The subtasks of a task, oldest first.
    pub fn list_subtasks(&self, parent_id: &str) -> (r: Result<Vec<Task>, WorkflowError>)
        ensures
            r matches Ok(v) && copies_of_tasks(
                v@,
                sort_ordered(keep(self.stored_tasks(), child_of(parent_id@)), created_order()),
            ),
    {
        let mut refs: Vec<&Task> = Vec::new();
        let mut i: usize = 0;
        while i < self.tasks.len()
            invariant
                i <= self.tasks.len(),
                task_values(refs@) == keep(self.tasks@.take(i as int), child_of(parent_id@)),
            decreases self.tasks.len() - i,
        {
            assert(self.tasks@.take(i + 1).drop_last() =~= self.tasks@.take(i as int));
            assert(self.tasks@.take(i + 1).last() == self.tasks@[i as int]);
            let t = &self.tasks[i];
            let is_child = match &t.parent_id {
                Some(p) => str_eq(p.as_str(), parent_id),
                None => false,
            };
            if is_child {
                let ghost before = task_values(refs@);
                refs.push(t);
                assert(task_values(refs@) =~= before.push(*t));
            }
            i = i + 1;
        }
        assert(self.tasks@.take(self.tasks.len() as int) =~= self.tasks@);
        let sorted = sort_tasks(refs);
        Ok(copy_tasks(&sorted))
    }

    /// Removes the task with the given id.
    pub fn delete_task(&mut self, id: &str) -> (r: Result<(), WorkflowError>)
        ensures
            r is Ok,
            final(self).stored_tasks() == match first_where(old(self).stored_tasks(), task_with_id(id@)) {
                Some(i) => old(self).stored_tasks().remove(i),
                None => old(self).stored_tasks(),
            },
            final(self).stored_iterations() == old(self).stored_iterations(),
            final(self).stored_sessions() == old(self).stored_sessions(),
            final(self).id_counter() == old(self).id_counter(),
            final(self).stored_logs() == old(self).stored_logs(),
    {
        match self.task_index(id) {
            Some(i) => {
                self.tasks.remove(i);
            },
            None => {},
        }
        Ok(())
    }

    /// Hands out the next task id: `task-001`, `task-002`, ...
    pub fn next_task_id(&mut self) -> (r: Result<String, WorkflowError>)
        ensures
            r matches Ok(s) && s@ == task_id_text(old(self).id_counter() as nat),
            final(self).id_counter() == counter_after(old(self).id_counter()),
            final(self).stored_tasks() == old(self).stored_tasks(),
            final(self).stored_iterations() == old(self).stored_iterations(),
            final(self).stored_sessions() == old(self).stored_sessions(),
            final(self).stored_logs() == old(self).stored_logs(),
    {
        let n = self.next_id;
        self.next_id = if n == u32::MAX {
            0
        } else {
            n + 1
        };
        let mut s = String::new();
        push_str(&mut s, "task-");
        push_padded_decimal(&mut s, n as u64, 3);
        Ok(s)
    }

    /// References to the stored iterations that pass the filter, in order.
    fn iteration_refs(&self, task_id: Option<&str>, stage: Option<&str>, active_only: bool) -> (r: Vec<&Iteration>)
        ensures
            iteration_values(r@) == keep(
                self.stored_iterations(),
                iteration_filter(opt_str(task_id), opt_str(stage), active_only),
            ),
    {
        let ghost p = iteration_filter(opt_str(task_id), opt_str(stage), active_only);
        let mut refs: Vec<&Iteration> = Vec::new();
        let mut i: usize = 0;
        assert(self.iterations@.take(0) =~= Seq::<Iteration>::empty());
        assert(iteration_values(refs@) =~= Seq::<Iteration>::empty());
        while i < self.iterations.len()
            invariant
                i <= self.iterations.len(),
                p == iteration_filter(opt_str(task_id), opt_str(stage), active_only),
                iteration_values(refs@) == keep(self.iterations@.take(i as int), p),
            decreases self.iterations.len() - i,
        {
            assert(self.iterations@.take(i + 1).drop_last() =~= self.iterations@.take(i as int));
            assert(self.iterations@.take(i + 1).last() == self.iterations@[i as int]);
            let it = &self.iterations[i];
            let task_ok = match task_id {
                Some(t) => str_eq(it.task_id.as_str(), t),
                None => true,
            };
            let stage_ok = match stage {
                Some(s) => str_eq(it.stage.as_str(), s),
                None => true,
            };
            if task_ok && stage_ok && (!active_only || it.ended_at.is_none()) {
                let ghost before = iteration_values(refs@);
                refs.push(it);
                assert(iteration_values(refs@) =~= before.push(*it));
            }
            i = i + 1;
        }
        assert(self.iterations@.take(self.iterations.len() as int) =~= self.iterations@);
        refs
    }

    /// All iterations, by task, stage and number.
    pub fn list_all_iterations(&self) -> (r: Result<Vec<Iteration>, WorkflowError>)
        ensures
            r matches Ok(v) && copies_of_iterations(
                v@,
                sort_ordered(self.stored_iterations(), iteration_order(IterationOrder::TaskStageNumber)),
            ),
    {
        let refs = self.iteration_refs(None, None, false);
        proof {
            lemma_keep_all(self.iterations@, iteration_filter(None, None, false));
        }
        let sorted = sort_iterations(refs, IterationOrder::TaskStageNumber);
        Ok(copy_iterations(&sorted))
    }

    /// The iterations of a task, by stage and number.
    pub fn get_iterations(&self, task_id: &str) -> (r: Result<Vec<Iteration>, WorkflowError>)
        ensures
            r matches Ok(v) && copies_of_iterations(
                v@,
                sort_ordered(
                    keep(self.stored_iterations(), iteration_filter(Some(task_id@), None, false)),
                    iteration_order(IterationOrder::StageNumber),
                ),
            ),
    {
        let refs = self.iteration_refs(Some(task_id), None, false);
        let sorted = sort_iterations(refs, IterationOrder::StageNumber);
        Ok(copy_iterations(&sorted))
    }

    /// The iterations of a task in one stage, by number.
    pub fn get_iterations_for_stage(&self, task_id: &str, stage: &str) -> (r: Result<Vec<Iteration>, WorkflowError>)
        ensures
            r matches Ok(v) && copies_of_iterations(
                v@,
                sort_ordered(
                    keep(self.stored_iterations(), iteration_filter(Some(task_id@), Some(stage@), false)),
                    iteration_order(IterationOrder::Number),
                ),
            ),
    {
        let refs = self.iteration_refs(Some(task_id), Some(stage), false);
        let sorted = sort_iterations(refs, IterationOrder::Number);
        Ok(copy_iterations(&sorted))
    }

    /// The highest-numbered of the given iterations (the last among equals).
    fn latest(v: &Vec<&Iteration>) -> (r: Option<Iteration>)
        ensures
            match latest_of(iteration_values(v@)) {
                Some(m) => r matches Some(x) && same_iteration(x, m),
                None => r is None,
            },
    {
        let mut best: Option<usize> = None;
        let mut i: usize = 0;
        let ghost all = iteration_values(v@);
        assert(all.take(0) =~= Seq::<Iteration>::empty());
        while i < v.len()
            invariant
                i <= v.len(),
                all == iteration_values(v@),
                match best {
                    Some(b) => b < i && latest_of(all.take(i as int)) == Some(all[b as int]),
                    None => latest_of(all.take(i as int)) is None,
                },
            decreases v.len() - i,
        {
            assert(all.take(i + 1).drop_last() =~= all.take(i as int));
            assert(all.take(i + 1).last() == all[i as int]);
            match best {
                Some(b) => {
                    if v[i].iteration_number >= v[b].iteration_number {
                        best = Some(i);
                    }
                },
                None => {
                    best = Some(i);
                },
            }
            i = i + 1;
        }
        assert(all.take(v.len() as int) =~= all);
        match best {
            Some(b) => Some(v[b].duplicate()),
            None => None,
        }
    }

    /// The active iteration of a task in a stage (the highest-numbered one).
    pub fn get_active_iteration(&self, task_id: &str, stage: &str) -> (r: Result<Option<Iteration>, WorkflowError>)
        ensures
            match latest_of(keep(self.stored_iterations(), iteration_filter(Some(task_id@), Some(stage@), true))) {
                Some(m) => r matches Ok(Some(x)) && same_iteration(x, m),
                None => r matches Ok(None),
            },
    {
        let refs = self.iteration_refs(Some(task_id), Some(stage), true);
        Ok(Self::latest(&refs))
    }

    /// The highest-numbered iteration of a task in a stage.
    pub fn get_latest_iteration(&self, task_id: &str, stage: &str) -> (r: Result<Option<Iteration>, WorkflowError>)
        ensures
            match latest_of(keep(self.stored_iterations(), iteration_filter(Some(task_id@), Some(stage@), false))) {
                Some(m) => r matches Ok(Some(x)) && same_iteration(x, m),
                None => r matches Ok(None),
            },
    {
        let refs = self.iteration_refs(Some(task_id), Some(stage), false);
        Ok(Self::latest(&refs))
    }

    fn iteration_index(&self, id: &str) -> (r: Option<usize>)
        ensures
            match r {
                Some(k) => first_where(self.stored_iterations(), iteration_with_id(id@)) == Some(k as int)
                    && k < self.stored_iterations().len(),
                None => first_where(self.stored_iterations(), iteration_with_id(id@)) is None,
            },
    {
        let mut i: usize = 0;
        while i < self.iterations.len()
            invariant
                i <= self.iterations.len(),
                forall|j: int| 0 <= j < i ==> !(iteration_with_id(id@))(#[trigger] self.iterations@[j]),
            decreases self.iterations.len() - i,
        {
            if str_eq(self.iterations[i].id.as_str(), id) {
                proof {
                    lemma_first_where(self.iterations@, iteration_with_id(id@), i as int);
                }
                return Some(i);
            }
            i = i + 1;
        }
        None
    }

    /// Stores a copy of `iteration`, replacing the one with the same id.
    pub fn save_iteration(&mut self, iteration: &Iteration) -> (r: Result<(), WorkflowError>)
        ensures
            r is Ok,
            iteration_saved(old(self).stored_iterations(), final(self).stored_iterations(), *iteration),
            final(self).stored_tasks() == old(self).stored_tasks(),
            final(self).stored_sessions() == old(self).stored_sessions(),
            final(self).id_counter() == old(self).id_counter(),
            final(self).stored_logs() == old(self).stored_logs(),
    {
        match self.iteration_index(iteration.id.as_str()) {
            Some(i) => {
                self.iterations.set(i, iteration.duplicate());
            },
            None => {
                self.iterations.push(iteration.duplicate());
            },
        }
        Ok(())
    }

    /// Removes every iteration of a task.
    pub fn delete_iterations(&mut self, task_id: &str) -> (r: Result<(), WorkflowError>)
        ensures
            r is Ok,
            final(self).stored_iterations() == keep(old(self).stored_iterations(), not_of_task(task_id@)),
            final(self).stored_tasks() == old(self).stored_tasks(),
            final(self).stored_sessions() == old(self).stored_sessions(),
            final(self).id_counter() == old(self).id_counter(),
            final(self).stored_logs() == old(self).stored_logs(),
    {
        let ghost orig = self.iterations@;
        let ghost p = not_of_task(task_id@);
        let ghost mut done: int = 0;
        let mut i: usize = 0;
        assert(orig.take(0) =~= Seq::<Iteration>::empty());
        assert(self.iterations@ =~= keep(orig.take(0), p) + orig.skip(0));
        while i < self.iterations.len()
            invariant
                0 <= done <= orig.len(),
                p == not_of_task(task_id@),
                self.iterations@ == keep(orig.take(done), p) + orig.skip(done),
                i as int == keep(orig.take(done), p).len(),
                self.iterations.len() == i + (orig.len() - done),
                self.tasks@ == old(self).tasks@,
                self.stage_sessions@ == old(self).stage_sessions@,
                self.next_id == old(self).next_id,
                self.logs@ == old(self).logs@,
            decreases self.iterations.len() - i,
        {
            let ghost kept = keep(orig.take(done), p);
            assert(orig.take(done + 1).drop_last() =~= orig.take(done));
            assert(orig.take(done + 1).last() == orig[done]);
            assert(self.iterations@[i as int] == orig[done]);
            if str_eq(self.iterations[i].task_id.as_str(), task_id) {
                self.iterations.remove(i);
                proof {
                    done = done + 1;
                }
                assert(self.iterations@ =~= keep(orig.take(done), p) + orig.skip(done));
            } else {
                proof {
                    done = done + 1;
                }
                assert(keep(orig.take(done), p) =~= kept.push(orig[done - 1]));
                assert(self.iterations@ =~= keep(orig.take(done), p) + orig.skip(done));
                i = i + 1;
            }
        }
        assert(orig.take(done) =~= orig);
        assert(self.iterations@ =~= keep(orig, p));
        Ok(())
    }

    /// The session of a task in a stage.
    pub fn get_stage_session(&self, task_id: &str, stage: &str) -> (r: Result<Option<StageSession>, WorkflowError>)
        ensures
            match first_where(self.stored_sessions(), session_in(task_id@, stage@)) {
                Some(i) => r == Ok::<Option<StageSession>, WorkflowError>(Some(self.stored_sessions()[i])),
                None => r == Ok::<Option<StageSession>, WorkflowError>(None),
            },
    {
        let mut i: usize = 0;
        while i < self.stage_sessions.len()
            invariant
                i <= self.stage_sessions.len(),
                forall|j: int| 0 <= j < i ==> !(session_in(task_id@, stage@))(#[trigger] self.stage_sessions@[j]),
            decreases self.stage_sessions.len() - i,
        {
            let s = &self.stage_sessions[i];
            if str_eq(s.task_id.as_str(), task_id) && str_eq(s.stage.as_str(), stage) {
                proof {
                    lemma_first_where(self.stage_sessions@, session_in(task_id@, stage@), i as int);
                }
                return Ok(Some(s.duplicate()));
            }
            i = i + 1;
        }
        Ok(None)
    }

    /// All sessions, by task and creation time.
    pub fn list_all_stage_sessions(&self) -> (r: Result<Vec<StageSession>, WorkflowError>)
        ensures
            r matches Ok(v) && v@ == sort_ordered(self.stored_sessions(), task_created_order()),
    {
        let all = self.sessions_where(None, false);
        proof {
            lemma_keep_all(self.stage_sessions@, session_filter(None, false));
        }
        Ok(sort_sessions(all))
    }

    /// The sessions of a task, in stored order.
    pub fn get_stage_sessions(&self, task_id: &str) -> (r: Result<Vec<StageSession>, WorkflowError>)
        ensures
            r matches Ok(v) && v@ == keep(self.stored_sessions(), session_filter(Some(task_id@), false)),
    {
        Ok(self.sessions_where(Some(task_id), false))
    }

    /// The sessions that have an agent process, in stored order.
    pub fn get_sessions_with_pids(&self) -> (r: Result<Vec<StageSession>, WorkflowError>)
        ensures
            r matches Ok(v) && v@ == keep(self.stored_sessions(), session_filter(None, true)),
    {
        Ok(self.sessions_where(None, true))
    }

    /// Copies of the sessions of a task (when given) with an agent process
    /// (when `with_pid`), in stored order.
    fn sessions_where(&self, task_id: Option<&str>, with_pid: bool) -> (r: Vec<StageSession>)
        ensures
            r@ == keep(self.stored_sessions(), session_filter(opt_str(task_id), with_pid)),
    {
        let ghost p = session_filter(opt_str(task_id), with_pid);
        let mut out: Vec<StageSession> = Vec::new();
        let mut i: usize = 0;
        assert(self.stage_sessions@.take(0) =~= Seq::<StageSession>::empty());
        while i < self.stage_sessions.len()
            invariant
                i <= self.stage_sessions.len(),
                p == session_filter(opt_str(task_id), with_pid),
                out@ == keep(self.stage_sessions@.take(i as int), p),
            decreases self.stage_sessions.len() - i,
        {
            assert(self.stage_sessions@.take(i + 1).drop_last() =~= self.stage_sessions@.take(i as int));
            assert(self.stage_sessions@.take(i + 1).last() == self.stage_sessions@[i as int]);
            let s = &self.stage_sessions[i];
            let task_ok = match task_id {
                Some(t) => str_eq(s.task_id.as_str(), t),
                None => true,
            };
            if task_ok && (!with_pid || s.agent_pid.is_some()) {
                out.push(s.duplicate());
            }
            i = i + 1;
        }
        assert(self.stage_sessions@.take(self.stage_sessions.len() as int) =~= self.stage_sessions@);
        out
    }

    fn session_index(&self, id: &str) -> (r: Option<usize>)
        ensures
            match r {
                Some(k) => first_where(self.stored_sessions(), session_with_id(id@)) == Some(k as int)
                    && k < self.stored_sessions().len(),
                None => first_where(self.stored_sessions(), session_with_id(id@)) is None,
            },
    {
        let mut i: usize = 0;
        while i < self.stage_sessions.len()
            invariant
                i <= self.stage_sessions.len(),
                forall|j: int| 0 <= j < i ==> !(session_with_id(id@))(#[trigger] self.stage_sessions@[j]),
            decreases self.stage_sessions.len() - i,
        {
            if str_eq(self.stage_sessions[i].id.as_str(), id) {
                proof {
                    lemma_first_where(self.stage_sessions@, session_with_id(id@), i as int);
                }
                return Some(i);
            }
            i = i + 1;
        }
        None
    }

    /// Stores `session`, replacing the one with the same id.
    pub fn save_stage_session(&mut self, session: &StageSession) -> (r: Result<(), WorkflowError>)
        ensures
            r is Ok,
            final(self).stored_sessions() == sessions_after_save(old(self).stored_sessions(), *session),
            final(self).stored_tasks() == old(self).stored_tasks(),
            final(self).stored_iterations() == old(self).stored_iterations(),
            final(self).id_counter() == old(self).id_counter(),
            final(self).stored_logs() == old(self).stored_logs(),
    {
        match self.session_index(session.id.as_str()) {
            Some(i) => {
                self.stage_sessions.set(i, session.duplicate());
            },
            None => {
                self.stage_sessions.push(session.duplicate());
            },
        }
        Ok(())
    }

    /// Removes every session of a task.
    pub fn delete_stage_sessions(&mut self, task_id: &str) -> (r: Result<(), WorkflowError>)
        ensures
            r is Ok,
            final(self).stored_sessions() == keep(old(self).stored_sessions(), session_not_of(task_id@)),
            final(self).stored_tasks() == old(self).stored_tasks(),
            final(self).stored_iterations() == old(self).stored_iterations(),
            final(self).id_counter() == old(self).id_counter(),
            final(self).stored_logs() == old(self).stored_logs(),
    {
        let ghost orig = self.stage_sessions@;
        let ghost p = session_not_of(task_id@);
        let ghost mut done: int = 0;
        let mut i: usize = 0;
        assert(orig.take(0) =~= Seq::<StageSession>::empty());
        assert(self.stage_sessions@ =~= keep(orig.take(0), p) + orig.skip(0));
        while i < self.stage_sessions.len()
            invariant
                0 <= done <= orig.len(),
                p == session_not_of(task_id@),
                self.stage_sessions@ == keep(orig.take(done), p) + orig.skip(done),
                i as int == keep(orig.take(done), p).len(),
                self.stage_sessions.len() == i + (orig.len() - done),
                self.tasks@ == old(self).tasks@,
                self.iterations@ == old(self).iterations@,
                self.next_id == old(self).next_id,
                self.logs@ == old(self).logs@,
            decreases self.stage_sessions.len() - i,
        {
            let ghost kept = keep(orig.take(done), p);
            assert(orig.take(done + 1).drop_last() =~= orig.take(done));
            assert(orig.take(done + 1).last() == orig[done]);
            assert(self.stage_sessions@[i as int] == orig[done]);
            if str_eq(self.stage_sessions[i].task_id.as_str(), task_id) {
                self.stage_sessions.remove(i);
                proof {
                    done = done + 1;
                }
                assert(self.stage_sessions@ =~= keep(orig.take(done), p) + orig.skip(done));
            } else {
                proof {
                    done = done + 1;
                }
                assert(keep(orig.take(done), p) =~= kept.push(orig[done - 1]));
                assert(self.stage_sessions@ =~= keep(orig.take(done), p) + orig.skip(done));
                i = i + 1;
            }
        }
        assert(orig.take(done) =~= orig);
        assert(self.stage_sessions@ =~= keep(orig, p));
        Ok(())
    }
}

impl Default for InMemoryWorkflowStore {
    fn default() -> (r: InMemoryWorkflowStore)
        ensures
            r.stored_tasks().len() == 0,
            r.stored_iterations().len() == 0,
            r.stored_sessions().len() == 0,
            r.id_counter() == 1,
    {
        InMemoryWorkflowStore::new()
    }
}

/// Reading after a save: the saved task is found under its id, and every
/// other id finds what it found before.
pub proof fn law_task_read_after_save(old_s: Seq<Task>, new_s: Seq<Task>, t: Task, id: Seq<char>)
    requires
        task_saved(old_s, new_s, t),
    ensures
        t.id@ == id ==> (first_where(new_s, task_with_id(id)) matches Some(j) && same_task(new_s[j], t)),
        t.id@ != id ==> match first_where(old_s, task_with_id(id)) {
            Some(i) => first_where(new_s, task_with_id(id)) == Some(i) && new_s[i] == old_s[i],
            None => first_where(new_s, task_with_id(id)) is None,
        },
{
    let p = task_with_id(id);
    let q = task_with_id(t.id@);
    lemma_first_where_props(old_s, q);
    lemma_first_where_props(old_s, p);
    match first_where(old_s, q) {
        Some(i) => {
            assert(0 <= i < old_s.len() && q(old_s[i]));
            assert forall|j: int| 0 <= j < i implies !q(#[trigger] old_s[j]) by {}
            if t.id@ == id {
                assert forall|j: int| 0 <= j < i implies !p(#[trigger] new_s[j]) by {
                    assert(new_s[j] == old_s[j]);
                }
                lemma_first_where(new_s, p, i);
            } else {
                match first_where(old_s, p) {
                    Some(k) => {
                        assert(0 <= k < old_s.len() && p(old_s[k]));
                        assert(k != i);
                        assert(new_s[k] == old_s[k]);
                        assert forall|j: int| 0 <= j < k implies !p(#[trigger] new_s[j]) by {
                            if j == i {
                                assert(same_task(new_s[i], t));
                            } else {
                                assert(new_s[j] == old_s[j]);
                                assert(!p(old_s[j]));
                            }
                        }
                        lemma_first_where(new_s, p, k);
                    },
                    None => {
                        assert forall|j: int| 0 <= j < new_s.len() implies !p(#[trigger] new_s[j]) by {
                            if j == i {
                                assert(same_task(new_s[i], t));
                            } else {
                                assert(new_s[j] == old_s[j]);
                                assert(!p(old_s[j]));
                            }
                        }
                    },
                }
            }
        },
        None => {
            let n = old_s.len() as int;
            if t.id@ == id {
                assert forall|j: int| 0 <= j < n implies !p(#[trigger] new_s[j]) by {
                    assert(new_s[j] == old_s[j]);
                    assert(!q(old_s[j]));
                }
                lemma_first_where(new_s, p, n);
            } else {
                match first_where(old_s, p) {
                    Some(k) => {
                        assert(0 <= k < old_s.len() && p(old_s[k]));
                        assert(new_s[k] == old_s[k]);
                        assert forall|j: int| 0 <= j < k implies !p(#[trigger] new_s[j]) by {
                            assert(new_s[j] == old_s[j]);
                            assert(!p(old_s[j]));
                        }
                        lemma_first_where(new_s, p, k);
                    },
                    None => {
                        assert forall|j: int| 0 <= j < new_s.len() implies !p(#[trigger] new_s[j]) by {
                            if j == n {
                                assert(same_task(new_s[n], t));
                            } else {
                                assert(new_s[j] == old_s[j]);
                                assert(!p(old_s[j]));
                            }
                        }
                    },
                }
            }
        },
    }
}

/// No two tasks share an id.
pub open spec fn unique_task_ids(s: Seq<Task>) -> bool {
    forall|i: int, j: int| 0 <= i < j < s.len() ==> (#[trigger] s[i]).id@ != (#[trigger] s[j]).id@
}

/// Saving keeps task ids unique.
pub proof fn law_save_keeps_ids_unique(old_s: Seq<Task>, new_s: Seq<Task>, t: Task)
    requires
        unique_task_ids(old_s),
        task_saved(old_s, new_s, t),
    ensures
        unique_task_ids(new_s),
{
    let q = task_with_id(t.id@);
    lemma_first_where_props(old_s, q);
    assert forall|i: int, j: int| 0 <= i < j < new_s.len() implies (#[trigger] new_s[i]).id@ != (#[trigger] new_s[j]).id@ by {
        match first_where(old_s, q) {
            Some(k) => {
                if i == k {
                    assert(new_s[j] == old_s[j]);
                    assert(old_s[k].id@ != old_s[j].id@);
                } else if j == k {
                    assert(new_s[i] == old_s[i]);
                    assert(old_s[i].id@ != old_s[k].id@);
                } else {
                    assert(new_s[i] == old_s[i] && new_s[j] == old_s[j]);
                }
            },
            None => {
                if j == old_s.len() {
                    assert(new_s[i] == old_s[i]);
                    assert(!q(old_s[i]));
                } else {
                    assert(new_s[i] == old_s[i] && new_s[j] == old_s[j]);
                }
            },
        }
    }
}

/// After a task is deleted, its id finds nothing (ids being unique).
pub proof fn law_deleted_task_is_gone(s: Seq<Task>, id: Seq<char>)
    requires
        unique_task_ids(s),
    ensures
        first_where(
            match first_where(s, task_with_id(id)) {
                Some(i) => s.remove(i),
                None => s,
            },
            task_with_id(id),
        ) is None,
{
    let p = task_with_id(id);
    lemma_first_where_props(s, p);
    match first_where(s, p) {
        Some(i) => {
            let r = s.remove(i);
            assert forall|j: int| 0 <= j < r.len() implies !p(#[trigger] r[j]) by {
                if j < i {
                    assert(r[j] == s[j]);
                } else {
                    assert(r[j] == s[j + 1]);
                    assert(s[i].id@ != s[j + 1].id@);
                }
            }
            lemma_first_where_props(r, p);
        },
        None => {},
    }
}

/// Reading a session after a save finds the saved session under its id.
pub proof fn law_session_read_after_save(s: Seq<StageSession>, x: StageSession)
    ensures
        first_where(sessions_after_save(s, x), session_with_id(x.id@)) matches Some(i) && sessions_after_save(s, x)[i]
            == x,
{
    let p = session_with_id(x.id@);
    lemma_first_where_props(s, p);
    let r = sessions_after_save(s, x);
    match first_where(s, p) {
        Some(i) => {
            assert forall|j: int| 0 <= j < i implies !p(#[trigger] r[j]) by {
                assert(r[j] == s[j]);
            }
            lemma_first_where(r, p, i);
        },
        None => {
            assert forall|j: int| 0 <= j < s.len() implies !p(#[trigger] r[j]) by {
                assert(r[j] == s[j]);
            }
            lemma_first_where(r, p, s.len() as int);
        },
    }
}

/// Reading an iteration after a save finds a copy of the saved iteration
/// under its id.
pub proof fn law_iteration_read_after_save(old_s: Seq<Iteration>, new_s: Seq<Iteration>, it: Iteration)
    requires
        iteration_saved(old_s, new_s, it),
    ensures
        first_where(new_s, iteration_with_id(it.id@)) matches Some(j) && same_iteration(new_s[j], it),
{
    let p = iteration_with_id(it.id@);
    lemma_first_where_props(old_s, p);
    match first_where(old_s, p) {
        Some(i) => {
            assert forall|j: int| 0 <= j < i implies !p(#[trigger] new_s[j]) by {
                assert(new_s[j] == old_s[j]);
            }
            lemma_first_where(new_s, p, i);
        },
        None => {
            assert forall|j: int| 0 <= j < old_s.len() implies !p(#[trigger] new_s[j]) by {
                assert(new_s[j] == old_s[j]);
            }
            lemma_first_where(new_s, p, old_s.len() as int);
        },
    }
}

/// Different counter values give different task ids, so the store hands out
/// a fresh id on every call until its counter wraps around.
pub proof fn law_task_ids_distinct(n: nat, m: nat)
    requires
        n != m,
    ensures
        task_id_text(n) != task_id_text(m),
{
    if task_id_text(n) == task_id_text(m) {
        reveal_strlit("task-");
        assert(task_id_text(n).skip(5) =~= dec_padded(n, 3));
        assert(task_id_text(m).skip(5) =~= dec_padded(m, 3));
        lemma_dec_padded_injective(n, m, 3);
    }
}

/// `i` belongs to the task's stage (and has not ended, when `active_only`).
pub open spec fn of_stage(i: Iteration, task_id: Seq<char>, stage: Seq<char>, active_only: bool) -> bool {
    i.task_id@ == task_id && i.stage@ == stage && (!active_only || i.ended_at is None)
}

/// The latest of the iterations of `its` that satisfy `p`, by induction on
/// `its`: one of them, with no higher number among them, and the last of
/// those with its number.
proof fn lemma_latest_kept(its: Seq<Iteration>, p: spec_fn(Iteration) -> bool)
    ensures
        match latest_of(keep(its, p)) {
            Some(m) => exists|k: int|
                #![trigger its[k]]
                0 <= k < its.len() && its[k] == m && p(m) && (forall|j: int|
                    0 <= j < its.len() && p(#[trigger] its[j]) ==> its[j].iteration_number <= m.iteration_number)
                    && (forall|j: int| k < j < its.len() && p(#[trigger] its[j]) ==> its[j].iteration_number
                    < m.iteration_number),
            None => forall|j: int| 0 <= j < its.len() ==> !p(#[trigger] its[j]),
        },
    decreases its.len(),
{
    if its.len() > 0 {
        let t = its.drop_last();
        lemma_latest_kept(t, p);
        let kt = keep(t, p);
        assert forall|j: int| 0 <= j < t.len() implies #[trigger] its[j] == t[j] by {}
        let last = its.last();
        assert(its[its.len() - 1] == last);
        if p(last) {
            assert(keep(its, p) == kt.push(last));
            assert(kt.push(last).drop_last() =~= kt);
            assert(kt.push(last).last() == last);
            match latest_of(kt) {
                Some(m) => {
                    let k = choose|k: int|
                        #![trigger t[k]]
                        0 <= k < t.len() && t[k] == m && p(m) && (forall|j: int|
                            0 <= j < t.len() && p(#[trigger] t[j]) ==> t[j].iteration_number <= m.iteration_number)
                            && (forall|j: int| k < j < t.len() && p(#[trigger] t[j]) ==> t[j].iteration_number
                            < m.iteration_number);
                    if last.iteration_number >= m.iteration_number {
                        assert(latest_of(keep(its, p)) == Some(last));
                        let kk = its.len() - 1;
                        assert(its[kk] == last);
                        assert forall|j: int| 0 <= j < its.len() && p(#[trigger] its[j]) implies its[j].iteration_number
                            <= last.iteration_number by {
                            if j < t.len() {
                                assert(p(t[j]));
                            }
                        }
                    } else {
                        assert(latest_of(keep(its, p)) == Some(m));
                        assert(its[k] == m);
                        assert forall|j: int| 0 <= j < its.len() && p(#[trigger] its[j]) implies its[j].iteration_number
                            <= m.iteration_number by {
                            if j < t.len() {
                                assert(p(t[j]));
                            }
                        }
                        assert forall|j: int| k < j < its.len() && p(#[trigger] its[j]) implies its[j].iteration_number
                            < m.iteration_number by {
                            if j < t.len() {
                                assert(p(t[j]));
                            }
                        }
                    }
                },
                None => {
                    assert(latest_of(keep(its, p)) == Some(last));
                    let kk = its.len() - 1;
                    assert(its[kk] == last);
                    assert forall|j: int| 0 <= j < its.len() && p(#[trigger] its[j]) implies its[j].iteration_number
                        <= last.iteration_number by {
                        if j < t.len() {
                            assert(!p(t[j]));
                        }
                    }
                },
            }
        } else {
            assert(keep(its, p) == kt);
            match latest_of(kt) {
                Some(m) => {
                    let k = choose|k: int|
                        #![trigger t[k]]
                        0 <= k < t.len() && t[k] == m && p(m) && (forall|j: int|
                            0 <= j < t.len() && p(#[trigger] t[j]) ==> t[j].iteration_number <= m.iteration_number)
                            && (forall|j: int| k < j < t.len() && p(#[trigger] t[j]) ==> t[j].iteration_number
                            < m.iteration_number);
                    assert(its[k] == m);
                    assert forall|j: int| 0 <= j < its.len() && p(#[trigger] its[j]) implies its[j].iteration_number
                        <= m.iteration_number by {
                        assert(j < t.len());
                        assert(p(t[j]));
                    }
                    assert forall|j: int| k < j < its.len() && p(#[trigger] its[j]) implies its[j].iteration_number
                        < m.iteration_number by {
                        assert(j < t.len());
                        assert(p(t[j]));
                    }
                },
                None => {
                    assert forall|j: int| 0 <= j < its.len() implies !p(#[trigger] its[j]) by {
                        if j < t.len() {
                            assert(!p(t[j]));
                        }
                    }
                },
            }
        }
    }
}

/// The latest iteration of a task's stage (as `get_latest_iteration`
/// reports it), and likewise the active one (`active_only`, as
/// `get_active_iteration` reports it), is a stored iteration of that stage;
/// no stored iteration of that stage has a higher number, and none stored
/// after it has the same (the last among equals). There is none only when
/// the stage has no stored iteration.
pub proof fn law_latest_iteration_is_highest(
    store: InMemoryWorkflowStore,
    task_id: Seq<char>,
    stage: Seq<char>,
    active_only: bool,
)
    ensures
        ({
            let its = store.stored_iterations();
            match latest_of(keep(its, iteration_filter(Some(task_id), Some(stage), active_only))) {
                Some(m) => exists|k: int|
                    #![trigger its[k]]
                    0 <= k < its.len() && its[k] == m && of_stage(m, task_id, stage, active_only) && (forall|j: int|
                        0 <= j < its.len() && of_stage(#[trigger] its[j], task_id, stage, active_only)
                            ==> its[j].iteration_number <= m.iteration_number) && (forall|j: int|
                        k < j < its.len() && of_stage(#[trigger] its[j], task_id, stage, active_only)
                            ==> its[j].iteration_number < m.iteration_number),
                None => forall|j: int| 0 <= j < its.len() ==> !of_stage(#[trigger] its[j], task_id, stage, active_only),
            }
        }),
{
    let its = store.stored_iterations();
    let p = iteration_filter(Some(task_id), Some(stage), active_only);
    lemma_latest_kept(its, p);
    assert forall|i: Iteration| #[trigger] of_stage(i, task_id, stage, active_only) == p(i) by {}
}

} // verus!
