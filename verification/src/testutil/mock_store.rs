//! A task store kept in memory, for tests.

use vstd::prelude::*;

use crate::text::{push_padded_decimal, push_str, str_eq};
use crate::workflow::adapters::memory::{
    copies_of_tasks, copy_tasks, counter_after, created_order, first_where, law_task_read_after_save, lemma_first_where, sort_tasks,
    task_saved, task_values, task_with_id,
};
use crate::text::dec_padded;
use crate::workflow::domain::sorting::sort_ordered;
use crate::workflow::domain::task::{same_task, Task};
use crate::workflow::ports::WorkflowError;

verus! {

/// Ids the mock store hands out: `TASK-001`, `TASK-002`, ...
pub open spec fn mock_id_text(n: nat) -> Seq<char> {
    "TASK-"@ + dec_padded(n, 3)
}

/// Position of the last task in `s` with id `id`.
pub open spec fn last_with_id(s: Seq<Task>, id: Seq<char>) -> Option<int>
    decreases s.len(),
{
    if s.len() == 0 {
        None
    } else if s.last().id@ == id {
        Some(s.len() - 1)
    } else {
        last_with_id(s.drop_last(), id)
    }
}

/// Each id finds (first) a copy of the last task in `tasks` with that id;
/// other ids find nothing.
pub open spec fn holds_last_by_id(stored: Seq<Task>, tasks: Seq<Task>) -> bool {
    forall|id: Seq<char>|
        match #[trigger] last_with_id(tasks, id) {
            Some(k) => first_where(stored, task_with_id(id)) matches Some(i) && same_task(stored[i], tasks[k]),
            None => first_where(stored, task_with_id(id)) is None,
        }
}

/// A task store held in memory, keyed by task id.
pub struct MockStore {
    tasks: Vec<Task>,
    next_id: u32,
}

impl MockStore {
    /// The stored tasks, in the order they were first saved.
    pub closed spec fn stored_tasks(&self) -> Seq<Task> {
        self.tasks@
    }

    /// The number the next id will carry.
    pub closed spec fn id_counter(&self) -> u32 {
        self.next_id
    }

    /// An empty store; ids start at 1.
    pub fn new() -> (r: MockStore)
        ensures
            r.stored_tasks().len() == 0,
            r.id_counter() == 1,
    {
        MockStore { tasks: Vec::new(), next_id: 1 }
    }

    /// Copies of all stored tasks.
    pub fn snapshot(&self) -> (r: Vec<Task>)
        ensures
            copies_of_tasks(r@, self.stored_tasks()),
    {
        let mut out: Vec<Task> = Vec::new();
        let mut i: usize = 0;
        while i < self.tasks.len()
            invariant
                i <= self.tasks.len(),
                out@.len() == i,
                forall|k: int| 0 <= k < i ==> same_task(#[trigger] out@[k], self.tasks@[k]),
            decreases self.tasks.len() - i,
        {
            out.push(self.tasks[i].duplicate());
            i = i + 1;
        }
        out
    }

    /// Number of stored tasks.
    pub fn len(&self) -> (r: usize)
        ensures
            r == self.stored_tasks().len(),
    {
        self.tasks.len()
    }

    /// Whether the store holds no task.
    pub fn is_empty(&self) -> (r: bool)
        ensures
            r == (self.stored_tasks().len() == 0),
    {
        self.tasks.len() == 0
    }

    /// Removes every task.
    pub fn clear(&mut self)
        ensures
            final(self).stored_tasks().len() == 0,
            final(self).id_counter() == old(self).id_counter(),
    {
        self.tasks = Vec::new();
    }

    fn index_of(&self, id: &str) -> (r: Option<usize>)
        ensures
            match r {
                Some(k) => first_where(self.stored_tasks(), task_with_id(id@)) == Some(k as int)
                    && k < self.stored_tasks().len(),
                None => first_where(self.stored_tasks(), task_with_id(id@)) is None,
            },
    {
        let mut i: usize = 0;
        while i < self.tasks.len()
            invariant
                i <= self.tasks.len(),
                forall|j: int| 0 <= j < i ==> !(task_with_id(id@))(#[trigger] self.tasks@[j]),
            decreases self.tasks.len() - i,
        {
            if str_eq(self.tasks[i].id.as_str(), id) {
                proof {
                    lemma_first_where(self.tasks@, task_with_id(id@), i as int);
                }
                return Some(i);
            }
            i = i + 1;
        }
        None
    }

    /// All tasks, oldest first.
    pub fn load_all(&self) -> (r: Result<Vec<Task>, WorkflowError>)
        ensures
            r matches Ok(v) && copies_of_tasks(v@, sort_ordered(self.stored_tasks(), created_order())),
    {
        let mut refs: Vec<&Task> = Vec::new();
        let mut i: usize = 0;
        while i < self.tasks.len()
            invariant
                i <= self.tasks.len(),
                task_values(refs@) == self.tasks@.take(i as int),
            decreases self.tasks.len() - i,
        {
            let ghost before = task_values(refs@);
            refs.push(&self.tasks[i]);
            assert(task_values(refs@) =~= before.push(self.tasks@[i as int]));
            assert(self.tasks@.take(i + 1) =~= self.tasks@.take(i as int).push(self.tasks@[i as int]));
            i = i + 1;
        }
        assert(self.tasks@.take(self.tasks.len() as int) =~= self.tasks@);
        let sorted = sort_tasks(refs);
        Ok(copy_tasks(&sorted))
    }

    /// The task with the given id.
    pub fn find_by_id(&self, id: &str) -> (r: Result<Option<Task>, WorkflowError>)
        ensures
            match first_where(self.stored_tasks(), task_with_id(id@)) {
                Some(i) => r matches Ok(Some(t)) && same_task(t, self.stored_tasks()[i]),
                None => r matches Ok(None),
            },
    {
        match self.index_of(id) {
            Some(i) => Ok(Some(self.tasks[i].duplicate())),
            None => Ok(None),
        }
    }

    /// Stores a copy of `task`, replacing the one with the same id.
    pub fn save(&mut self, task: &Task) -> (r: Result<(), WorkflowError>)
        ensures
            r is Ok,
            task_saved(old(self).stored_tasks(), final(self).stored_tasks(), *task),
            final(self).id_counter() == old(self).id_counter(),
    {
        match self.index_of(task.id.as_str()) {
            Some(i) => {
                self.tasks.set(i, task.duplicate());
            },
            None => {
                self.tasks.push(task.duplicate());
            },
        }
        Ok(())
    }

    /// Replaces the contents with `tasks` (a later task replaces an earlier
    /// one with the same id).
    pub fn save_all(&mut self, tasks: &[Task]) -> (r: Result<(), WorkflowError>)
        ensures
            r is Ok,
            final(self).id_counter() == old(self).id_counter(),
            holds_last_by_id(final(self).stored_tasks(), tasks@),
    {
        self.tasks = Vec::new();
        let mut i: usize = 0;
        assert(tasks@.take(0) =~= Seq::<Task>::empty());
        assert(holds_last_by_id(self.tasks@, tasks@.take(0))) by {
            assert forall|id: Seq<char>| #[trigger] last_with_id(tasks@.take(0), id) is None by {}
            assert forall|id: Seq<char>| first_where(self.tasks@, #[trigger] task_with_id(id)) is None by {}
        }
        while i < tasks.len()
            invariant
                i <= tasks.len(),
                self.next_id == old(self).next_id,
                holds_last_by_id(self.tasks@, tasks@.take(i as int)),
            decreases tasks.len() - i,
        {
            let ghost before = self.tasks@;
            let ghost seen = tasks@.take(i as int);
            assert(tasks@.take(i + 1) =~= seen.push(tasks@[i as int]));
            let t = &tasks[i];
            let _ = self.save(t);
            proof {
                lemma_save_all_step(before, self.tasks@, *t, seen);
            }
            i = i + 1;
        }
        assert(tasks@.take(tasks.len() as int) =~= tasks@);
        Ok(())
    }

    /// Hands out the next id: `TASK-001`, `TASK-002`, ...
    pub fn next_id(&mut self) -> (r: Result<String, WorkflowError>)
        ensures
            r matches Ok(s) && s@ == mock_id_text(old(self).id_counter() as nat),
            final(self).id_counter() == counter_after(old(self).id_counter()),
            final(self).stored_tasks() == old(self).stored_tasks(),
    {
        let n = self.next_id;
        self.next_id = if n == u32::MAX {
            0
        } else {
            n + 1
        };
        let mut s = String::new();
        push_str(&mut s, "TASK-");
        push_padded_decimal(&mut s, n as u64, 3);
        Ok(s)
    }
}

impl Default for MockStore {
    fn default() -> (r: MockStore)
        ensures
            r.stored_tasks().len() == 0,
            r.id_counter() == 1,
    {
        MockStore::new()
    }
}

proof fn lemma_save_all_step(before: Seq<Task>, after: Seq<Task>, t: Task, seen: Seq<Task>)
    requires
        holds_last_by_id(before, seen),
        task_saved(before, after, t),
    ensures
        holds_last_by_id(after, seen.push(t)),
{
    let next = seen.push(t);
    assert forall|id: Seq<char>| #[trigger] last_with_id(next, id) == last_with_id(next, id) implies (match last_with_id(next, id) {
        Some(k) => first_where(after, task_with_id(id)) matches Some(i) && same_task(after[i], next[k]),
        None => first_where(after, task_with_id(id)) is None,
    }) by {
        assert(next.drop_last() =~= seen);
        law_task_read_after_save(before, after, t, id);
        if t.id@ != id {
            assert(last_with_id(seen, id) == last_with_id(seen, id));
            match last_with_id(seen, id) {
                Some(k) => {
                    lemma_last_with_id_in_range(seen, id);
                    assert(next[k] == seen[k]);
                },
                None => {},
            }
        }
    }
}

proof fn lemma_last_with_id_in_range(s: Seq<Task>, id: Seq<char>)
    ensures
        last_with_id(s, id) matches Some(k) ==> 0 <= k < s.len(),
    decreases s.len(),
{
    if s.len() > 0 && s.last().id@ != id {
        lemma_last_with_id_in_range(s.drop_last(), id);
    }
}

} // verus!
