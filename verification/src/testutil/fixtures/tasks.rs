//! Task fixtures.

use vstd::prelude::*;

use super::FIXTURE_TIMESTAMP;
use crate::text::{owned, push_str};
use crate::workflow::adapters::memory::{task_saved, InMemoryWorkflowStore};
use crate::workflow::domain::task::{is_new_task, Task};
use crate::workflow::ports::WorkflowError;
use crate::workflow::runtime::{artifact_lookup, law_artifact_read_after_set, Artifact};

verus! {

/// `store` holds `t` as saved, and nothing else changed.
pub open spec fn saved_task_only(old_store: InMemoryWorkflowStore, new_store: InMemoryWorkflowStore, t: Task) -> bool {
    &&& task_saved(old_store.stored_tasks(), new_store.stored_tasks(), t)
    &&& new_store.stored_iterations() == old_store.stored_iterations()
    &&& new_store.stored_sessions() == old_store.stored_sessions()
    &&& new_store.id_counter() == old_store.id_counter()
}

/// Saves a task in the planning stage with a default title and description.
pub fn save_planning_task(store: &mut InMemoryWorkflowStore, id: &str) -> (r: Result<Task, WorkflowError>)
    ensures
        r matches Ok(t) && is_new_task(
            t,
            id@,
            "Test task"@,
            "Test description"@,
            "planning"@,
            FIXTURE_TIMESTAMP@,
        ) && t.artifacts@.len() == 0 && saved_task_only(*old(store), *final(store), t),
{
    save_task(store, id, "planning", "Test task", "Test description")
}

/// Saves a new task in a stage.
pub fn save_task(
    store: &mut InMemoryWorkflowStore,
    id: &str,
    stage: &str,
    title: &str,
    description: &str,
) -> (r: Result<Task, WorkflowError>)
    ensures
        r matches Ok(t) && is_new_task(t, id@, title@, description@, stage@, FIXTURE_TIMESTAMP@)
            && t.artifacts@.len() == 0 && saved_task_only(*old(store), *final(store), t),
{
    let task = Task::new(id, title, description, stage, FIXTURE_TIMESTAMP);
    match store.save_task(&task) {
        Ok(()) => Ok(task),
        Err(e) => Err(e),
    }
}

/// Saves a task with its branch `ork/<id>` and worktree `/tmp/.worktrees/<id>`.
pub fn save_task_with_worktree(store: &mut InMemoryWorkflowStore, id: &str, stage: &str) -> (r: Result<Task, WorkflowError>)
    ensures
        r matches Ok(t) && is_new_task(
            Task { branch_name: None, worktree_path: None, ..t },
            id@,
            "Test task"@,
            "Test description"@,
            stage@,
            FIXTURE_TIMESTAMP@,
        ) && (t.branch_name matches Some(b) && b@ == "ork/"@ + id@) && (t.worktree_path matches Some(w) && w@
            == "/tmp/.worktrees/"@ + id@) && t.artifacts@.len() == 0 && saved_task_only(*old(store), *final(store), t),
{
    let mut branch = owned("ork/");
    push_str(&mut branch, id);
    let mut path = owned("/tmp/.worktrees/");
    push_str(&mut path, id);
    let task = Task::new(id, "Test task", "Test description", stage, FIXTURE_TIMESTAMP).with_git_worktree(
        branch.as_str(),
        path.as_str(),
    );
    match store.save_task(&task) {
        Ok(()) => Ok(task),
        Err(e) => Err(e),
    }
}

/// Saves a subtask of `parent_id`, in the planning stage.
pub fn save_subtask(store: &mut InMemoryWorkflowStore, id: &str, parent_id: &str) -> (r: Result<Task, WorkflowError>)
    ensures
        r matches Ok(t) && is_new_task(
            Task { parent_id: None, ..t },
            id@,
            "Subtask"@,
            "Subtask description"@,
            "planning"@,
            FIXTURE_TIMESTAMP@,
        ) && (t.parent_id matches Some(p) && p@ == parent_id@) && t.artifacts@.len() == 0 && saved_task_only(*old(store), *final(store), t),
{
    let task = Task::new(id, "Subtask", "Subtask description", "planning", FIXTURE_TIMESTAMP).with_parent(parent_id);
    match store.save_task(&task) {
        Ok(()) => Ok(task),
        Err(e) => Err(e),
    }
}

/// Position of the last fixture artifact named `name`.
pub open spec fn last_item_named(items: Seq<(&str, &str, &str)>, name: Seq<char>) -> Option<int>
    decreases items.len(),
{
    if items.len() == 0 {
        None
    } else if items.last().0@ == name {
        Some(items.len() - 1)
    } else {
        last_item_named(items.drop_last(), name)
    }
}

/// An artifact made from a `(name, content, stage)` fixture item.
pub open spec fn made_from(a: Artifact, item: (&str, &str, &str)) -> bool {
    a.name@ == item.0@ && a.content@ == item.1@ && a.stage@ == item.2@ && a.created_at@ == FIXTURE_TIMESTAMP@
}

/// Each name reads the last item with that name; other names read nothing.
pub open spec fn holds_items(s: Seq<Artifact>, items: Seq<(&str, &str, &str)>) -> bool {
    forall|name: Seq<char>|
        match #[trigger] last_item_named(items, name) {
            Some(k) => artifact_lookup(s, name) matches Some(a) && made_from(a, items[k]),
            None => artifact_lookup(s, name) is None,
        }
}

/// Saves a task whose artifacts are the given `(name, content, stage)` items.
pub fn save_task_with_artifacts(
    store: &mut InMemoryWorkflowStore,
    id: &str,
    stage: &str,
    artifacts: &[(&str, &str, &str)],
) -> (r: Result<Task, WorkflowError>)
    ensures
        r matches Ok(t) && is_new_task(
            t,
            id@,
            "Test task"@,
            "Test description"@,
            stage@,
            FIXTURE_TIMESTAMP@,
        ) && holds_items(t.artifacts@, artifacts@) && saved_task_only(*old(store), *final(store), t),
{
    let mut task = Task::new(id, "Test task", "Test description", stage, FIXTURE_TIMESTAMP);
    let ghost fresh = task;
    let mut i: usize = 0;
    assert(artifacts@.take(0) =~= Seq::<(&str, &str, &str)>::empty());
    assert forall|n: Seq<char>| #[trigger] last_item_named(artifacts@.take(0), n) is None by {}
    assert(task.artifacts@ =~= Seq::<Artifact>::empty());
    while i < artifacts.len()
        invariant
            i <= artifacts.len(),
            task == (Task { artifacts: task.artifacts, ..fresh }),
            holds_items(task.artifacts@, artifacts@.take(i as int)),
        decreases artifacts.len() - i,
    {
        let (name, content, artifact_stage) = artifacts[i];
        let a = Artifact::new(name, content, artifact_stage, FIXTURE_TIMESTAMP);
        let ghost before = task.artifacts@;
        let ghost seen = artifacts@.take(i as int);
        let ghost next = artifacts@.take(i + 1);
        assert(next.drop_last() =~= seen);
        assert(next.last() == artifacts@[i as int]);
        task.artifacts.set(a);
        assert forall|n: Seq<char>| #[trigger] last_item_named(next, n) == last_item_named(next, n) implies (match last_item_named(next, n) {
            Some(k) => artifact_lookup(task.artifacts@, n) matches Some(x) && made_from(x, next[k]),
            None => artifact_lookup(task.artifacts@, n) is None,
        }) by {
            law_artifact_read_after_set(before, a, n);
            if n != a.name@ {
                assert(last_item_named(next, n) == last_item_named(seen, n));
                match last_item_named(seen, n) {
                    Some(k) => {
                        lemma_last_item_in_range(seen, n);
                        assert(next[k] == seen[k]);
                    },
                    None => {},
                }
            }
        }
        i = i + 1;
    }
    assert(artifacts@.take(artifacts.len() as int) =~= artifacts@);
    match store.save_task(&task) {
        Ok(()) => Ok(task),
        Err(e) => Err(e),
    }
}

pub proof fn lemma_last_item_in_range(items: Seq<(&str, &str, &str)>, name: Seq<char>)
    ensures
        last_item_named(items, name) matches Some(k) ==> 0 <= k < items.len() && items[k].0@ == name,
    decreases items.len(),
{
    if items.len() > 0 && items.last().0@ != name {
        lemma_last_item_in_range(items.drop_last(), name);
        match last_item_named(items.drop_last(), name) {
            Some(k) => {
                assert(items.drop_last()[k] == items[k]);
            },
            None => {},
        }
    }
}

} // verus!
