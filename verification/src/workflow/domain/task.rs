//! The task entity, its lightweight header, and the per-tick snapshot the
//! orchestrator routes from.

use vstd::prelude::*;

use crate::text::{chars_of, owned, string_from_chars};
use crate::workflow::runtime::{
    artifact_lookup, clone_opt_string, clone_strings, ArtifactStore, TaskState,
};

verus! {

/// A unit of work moving through workflow stages.
#[derive(Debug, Clone, PartialEq)]
pub struct Task {
    pub id: String,
    pub title: String,
    pub description: String,
    /// Where the task is in its lifecycle.
    pub state: TaskState,
    /// Stage outputs stored by name.
    pub artifacts: ArtifactStore,
    /// Parent task id, for subtasks.
    pub parent_id: Option<String>,
    /// Short display id for subtasks (last word of the id).
    pub short_id: Option<String>,
    /// Ids of the tasks that must finish first.
    pub depends_on: Vec<String>,
    pub branch_name: Option<String>,
    pub worktree_path: Option<String>,
    /// Branch the task was created from (merge target).
    pub base_branch: String,
    /// Commit of the base branch when the worktree was created.
    pub base_commit: String,
    pub pr_url: Option<String>,
    /// Runs through all stages without pausing for review.
    pub auto_mode: bool,
    /// Polls its pull request for feedback once done.
    pub auto_resolve: bool,
    /// Named flow; `None` is the full pipeline.
    pub flow: Option<String>,
    pub created_at: String,
    pub updated_at: String,
    pub completed_at: Option<String>,
}

/// Two tasks hold the same data.
pub open spec fn same_task(a: Task, b: Task) -> bool {
    &&& a.id == b.id
    &&& a.title == b.title
    &&& a.description == b.description
    &&& a.state == b.state
    &&& a.artifacts@ == b.artifacts@
    &&& a.parent_id == b.parent_id
    &&& a.short_id == b.short_id
    &&& a.depends_on@ == b.depends_on@
    &&& a.branch_name == b.branch_name
    &&& a.worktree_path == b.worktree_path
    &&& a.base_branch == b.base_branch
    &&& a.base_commit == b.base_commit
    &&& a.pr_url == b.pr_url
    &&& a.auto_mode == b.auto_mode
    &&& a.auto_resolve == b.auto_resolve
    &&& a.flow == b.flow
    &&& a.created_at == b.created_at
    &&& a.updated_at == b.updated_at
    &&& a.completed_at == b.completed_at
}

/// `t` holds, outside its artifacts, what `Task::new` makes of these arguments.
pub open spec fn is_new_task(
    t: Task,
    id: Seq<char>,
    title: Seq<char>,
    description: Seq<char>,
    first_stage: Seq<char>,
    created_at: Seq<char>,
) -> bool {
    &&& t.id@ == id
    &&& t.title@ == title
    &&& t.description@ == description
    &&& t.state matches TaskState::Queued { stage } && stage@ == first_stage
    &&& t.parent_id is None
    &&& t.short_id is None
    &&& t.depends_on@.len() == 0
    &&& t.branch_name is None
    &&& t.worktree_path is None
    &&& t.base_branch@.len() == 0
    &&& t.base_commit@.len() == 0
    &&& t.pr_url is None
    &&& !t.auto_mode
    &&& !t.auto_resolve
    &&& t.flow is None
    &&& t.created_at@ == created_at
    &&& t.updated_at@ == created_at
    &&& t.completed_at is None
}

impl Task {
    /// A new task queued in its first stage.
    pub fn new(id: &str, title: &str, description: &str, first_stage: &str, created_at: &str) -> (r: Task)
        ensures
            r.id@ == id@,
            r.title@ == title@,
            r.description@ == description@,
            r.state matches TaskState::Queued { stage } && stage@ == first_stage@,
            r.artifacts@.len() == 0,
            r.parent_id is None,
            r.short_id is None,
            r.depends_on@.len() == 0,
            r.branch_name is None,
            r.worktree_path is None,
            r.base_branch@.len() == 0,
            r.base_commit@.len() == 0,
            r.pr_url is None,
            !r.auto_mode,
            !r.auto_resolve,
            r.flow is None,
            r.created_at@ == created_at@,
            r.updated_at@ == created_at@,
            r.completed_at is None,
            is_new_task(r, id@, title@, description@, first_stage@, created_at@),
    {
        Task {
            id: owned(id),
            title: owned(title),
            description: owned(description),
            state: TaskState::queued(first_stage),
            artifacts: ArtifactStore::new(),
            parent_id: None,
            short_id: None,
            depends_on: Vec::new(),
            branch_name: None,
            worktree_path: None,
            base_branch: String::new(),
            base_commit: String::new(),
            pr_url: None,
            auto_mode: false,
            auto_resolve: false,
            flow: None,
            created_at: owned(created_at),
            updated_at: owned(created_at),
            completed_at: None,
        }
    }

    /// Builder: set the parent (for subtasks).
    pub fn with_parent(self, parent_id: &str) -> (r: Task)
        ensures
            r.parent_id matches Some(p) && p@ == parent_id@,
            r == (Task { parent_id: r.parent_id, ..self }),
    {
        Task { parent_id: Some(owned(parent_id)), ..self }
    }

    /// Builder: set the dependencies.
    pub fn with_dependencies(self, depends_on: Vec<String>) -> (r: Task)
        ensures
            r == (Task { depends_on, ..self }),
    {
        Task { depends_on, ..self }
    }

    /// Builder: set auto mode.
    pub fn with_auto_mode(self, auto_mode: bool) -> (r: Task)
        ensures
            r == (Task { auto_mode, ..self }),
    {
        Task { auto_mode, ..self }
    }

    /// Builder: set the branch name.
    pub fn with_branch(self, branch_name: &str) -> (r: Task)
        ensures
            r.branch_name matches Some(b) && b@ == branch_name@,
            r == (Task { branch_name: r.branch_name, ..self }),
    {
        Task { branch_name: Some(owned(branch_name)), ..self }
    }

    /// Builder: set the worktree path.
    pub fn with_worktree(self, worktree_path: &str) -> (r: Task)
        ensures
            r.worktree_path matches Some(w) && w@ == worktree_path@,
            r == (Task { worktree_path: r.worktree_path, ..self }),
    {
        Task { worktree_path: Some(owned(worktree_path)), ..self }
    }

    /// Builder: set the base branch.
    pub fn with_base_branch(self, base_branch: &str) -> (r: Task)
        ensures
            r.base_branch@ == base_branch@,
            r == (Task { base_branch: r.base_branch, ..self }),
    {
        Task { base_branch: owned(base_branch), ..self }
    }

    /// Builder: set the base commit.
    pub fn with_base_commit(self, base_commit: &str) -> (r: Task)
        ensures
            r.base_commit@ == base_commit@,
            r == (Task { base_commit: r.base_commit, ..self }),
    {
        Task { base_commit: owned(base_commit), ..self }
    }

    /// Builder: set both branch and worktree.
    pub fn with_git_worktree(self, branch_name: &str, worktree_path: &str) -> (r: Task)
        ensures
            r.branch_name matches Some(b) && b@ == branch_name@,
            r.worktree_path matches Some(w) && w@ == worktree_path@,
            r == (Task { branch_name: r.branch_name, worktree_path: r.worktree_path, ..self }),
    {
        Task { branch_name: Some(owned(branch_name)), worktree_path: Some(owned(worktree_path)), ..self }
    }

    /// Current stage, if the state is tied to one.
    pub fn current_stage(&self) -> (r: Option<&str>)
        ensures
            match r {
                Some(s) => self.state.spec_stage() == Some(s@),
                None => self.state.spec_stage() is None,
            },
    {
        self.state.stage()
    }

    pub fn is_terminal(&self) -> (r: bool)
        ensures
            r == self.state.spec_is_terminal(),
    {
        self.state.is_terminal()
    }

    pub fn is_done(&self) -> (r: bool)
        ensures
            r == (self.state is Done),
    {
        match self.state {
            TaskState::Done => true,
            _ => false,
        }
    }

    pub fn is_blocked(&self) -> (r: bool)
        ensures
            r == (self.state is Blocked),
    {
        match self.state {
            TaskState::Blocked { .. } => true,
            _ => false,
        }
    }

    pub fn is_failed(&self) -> (r: bool)
        ensures
            r == (self.state is Failed),
    {
        match self.state {
            TaskState::Failed { .. } => true,
            _ => false,
        }
    }

    /// Completed and integrated.
    pub fn is_archived(&self) -> (r: bool)
        ensures
            r == (self.state is Archived),
    {
        match self.state {
            TaskState::Archived => true,
            _ => false,
        }
    }

    pub fn is_subtask(&self) -> (r: bool)
        ensures
            r == (self.parent_id is Some),
    {
        self.parent_id.is_some()
    }

    /// Content of the named artifact.
    pub fn artifact(&self, name: &str) -> (r: Option<&str>)
        ensures
            match artifact_lookup(self.artifacts@, name@) {
                Some(a) => r is Some && r.unwrap()@ == a.content@,
                None => r is None,
            },
    {
        self.artifacts.content(name)
    }

    /// Stage output waits for a human decision.
    pub fn is_awaiting_review(&self) -> (r: bool)
        ensures
            r == self.state.spec_needs_human(),
    {
        self.state.needs_human_review()
    }

    /// Awaiting review while active in a stage.
    pub fn needs_review(&self) -> (r: bool)
        ensures
            r == (self.state.spec_needs_human() && self.state.spec_stage() is Some),
    {
        self.is_awaiting_review() && self.state.stage().is_some()
    }

    /// Has an open pull request.
    pub fn has_open_pr(&self) -> (r: bool)
        ensures
            r == (self.pr_url is Some),
    {
        self.pr_url.is_some()
    }

    /// A copy holding the same data.
    pub fn duplicate(&self) -> (r: Task)
        ensures
            same_task(r, *self),
    {
        Task {
            id: self.id.clone(),
            title: self.title.clone(),
            description: self.description.clone(),
            state: self.state.duplicate(),
            artifacts: self.artifacts.duplicate(),
            parent_id: clone_opt_string(&self.parent_id),
            short_id: clone_opt_string(&self.short_id),
            depends_on: clone_strings(&self.depends_on),
            branch_name: clone_opt_string(&self.branch_name),
            worktree_path: clone_opt_string(&self.worktree_path),
            base_branch: self.base_branch.clone(),
            base_commit: self.base_commit.clone(),
            pr_url: clone_opt_string(&self.pr_url),
            auto_mode: self.auto_mode,
            auto_resolve: self.auto_resolve,
            flow: clone_opt_string(&self.flow),
            created_at: self.created_at.clone(),
            updated_at: self.updated_at.clone(),
            completed_at: clone_opt_string(&self.completed_at),
        }
    }
}

/// Task metadata without artifacts, for routing decisions.
#[derive(Debug, Clone, PartialEq)]
pub struct TaskHeader {
    pub id: String,
    pub title: String,
    pub description: String,
    pub state: TaskState,
    pub parent_id: Option<String>,
    pub short_id: Option<String>,
    pub depends_on: Vec<String>,
    pub branch_name: Option<String>,
    pub worktree_path: Option<String>,
    pub base_branch: String,
    pub base_commit: String,
    pub pr_url: Option<String>,
    pub auto_mode: bool,
    pub auto_resolve: bool,
    pub flow: Option<String>,
    pub created_at: String,
    pub updated_at: String,
    pub completed_at: Option<String>,
}

/// Two headers hold the same data.
pub open spec fn same_header(a: TaskHeader, b: TaskHeader) -> bool {
    &&& a.id == b.id
    &&& a.title == b.title
    &&& a.description == b.description
    &&& a.state == b.state
    &&& a.parent_id == b.parent_id
    &&& a.short_id == b.short_id
    &&& a.depends_on@ == b.depends_on@
    &&& a.branch_name == b.branch_name
    &&& a.worktree_path == b.worktree_path
    &&& a.base_branch == b.base_branch
    &&& a.base_commit == b.base_commit
    &&& a.pr_url == b.pr_url
    &&& a.auto_mode == b.auto_mode
    &&& a.auto_resolve == b.auto_resolve
    &&& a.flow == b.flow
    &&& a.created_at == b.created_at
    &&& a.updated_at == b.updated_at
    &&& a.completed_at == b.completed_at
}

/// The header of a task: every field but the artifacts.
pub open spec fn header_of(t: Task, h: TaskHeader) -> bool {
    &&& h.id == t.id
    &&& h.title == t.title
    &&& h.description == t.description
    &&& h.state == t.state
    &&& h.parent_id == t.parent_id
    &&& h.short_id == t.short_id
    &&& h.depends_on@ == t.depends_on@
    &&& h.branch_name == t.branch_name
    &&& h.worktree_path == t.worktree_path
    &&& h.base_branch == t.base_branch
    &&& h.base_commit == t.base_commit
    &&& h.pr_url == t.pr_url
    &&& h.auto_mode == t.auto_mode
    &&& h.auto_resolve == t.auto_resolve
    &&& h.flow == t.flow
    &&& h.created_at == t.created_at
    &&& h.updated_at == t.updated_at
    &&& h.completed_at == t.completed_at
}

impl TaskHeader {
    /// The header of `task`.
    pub fn from_task(task: &Task) -> (r: TaskHeader)
        ensures
            header_of(*task, r),
    {
        TaskHeader {
            id: task.id.clone(),
            title: task.title.clone(),
            description: task.description.clone(),
            state: task.state.duplicate(),
            parent_id: clone_opt_string(&task.parent_id),
            short_id: clone_opt_string(&task.short_id),
            depends_on: clone_strings(&task.depends_on),
            branch_name: clone_opt_string(&task.branch_name),
            worktree_path: clone_opt_string(&task.worktree_path),
            base_branch: task.base_branch.clone(),
            base_commit: task.base_commit.clone(),
            pr_url: clone_opt_string(&task.pr_url),
            auto_mode: task.auto_mode,
            auto_resolve: task.auto_resolve,
            flow: clone_opt_string(&task.flow),
            created_at: task.created_at.clone(),
            updated_at: task.updated_at.clone(),
            completed_at: clone_opt_string(&task.completed_at),
        }
    }

    pub fn is_done(&self) -> (r: bool)
        ensures
            r == (self.state is Done),
    {
        match self.state {
            TaskState::Done => true,
            _ => false,
        }
    }

    pub fn is_archived(&self) -> (r: bool)
        ensures
            r == (self.state is Archived),
    {
        match self.state {
            TaskState::Archived => true,
            _ => false,
        }
    }

    pub fn is_subtask(&self) -> (r: bool)
        ensures
            r == (self.parent_id is Some),
    {
        self.parent_id.is_some()
    }

    pub fn current_stage(&self) -> (r: Option<&str>)
        ensures
            match r {
                Some(s) => self.state.spec_stage() == Some(s@),
                None => self.state.spec_stage() is None,
            },
    {
        self.state.stage()
    }

    pub fn has_open_pr(&self) -> (r: bool)
        ensures
            r == (self.pr_url is Some),
    {
        self.pr_url.is_some()
    }

    /// A copy holding the same data.
    pub fn duplicate(&self) -> (r: TaskHeader)
        ensures
            same_header(r, *self),
    {
        TaskHeader {
            id: self.id.clone(),
            title: self.title.clone(),
            description: self.description.clone(),
            state: self.state.duplicate(),
            parent_id: clone_opt_string(&self.parent_id),
            short_id: clone_opt_string(&self.short_id),
            depends_on: clone_strings(&self.depends_on),
            branch_name: clone_opt_string(&self.branch_name),
            worktree_path: clone_opt_string(&self.worktree_path),
            base_branch: self.base_branch.clone(),
            base_commit: self.base_commit.clone(),
            pr_url: clone_opt_string(&self.pr_url),
            auto_mode: self.auto_mode,
            auto_resolve: self.auto_resolve,
            flow: clone_opt_string(&self.flow),
            created_at: self.created_at.clone(),
            updated_at: self.updated_at.clone(),
            completed_at: clone_opt_string(&self.completed_at),
        }
    }
}

/// The buckets of a tick snapshot.
#[derive(Debug, Clone, Copy, PartialEq, Eq)]
pub enum Bucket {
    /// Waiting for worktree setup.
    AwaitingSetup,
    /// Parents waiting on their children.
    WaitingParents,
    /// Queued for an agent.
    IdleActive,
    /// Done, with a worktree to integrate.
    IdleDoneWithWorktree,
}

/// Whether a header belongs in a bucket.
pub open spec fn in_bucket(h: TaskHeader, b: Bucket) -> bool {
    match b {
        Bucket::AwaitingSetup => h.state is AwaitingSetup,
        Bucket::WaitingParents => h.state is WaitingOnChildren,
        Bucket::IdleActive => h.state is Queued,
        Bucket::IdleDoneWithWorktree => h.state is Done && h.worktree_path is Some,
    }
}

/// The headers of `s` that belong in bucket `b`, in order.
pub open spec fn select(s: Seq<TaskHeader>, b: Bucket) -> Seq<TaskHeader>
    decreases s.len(),
{
    if s.len() == 0 {
        s
    } else if in_bucket(s.last(), b) {
        select(s.drop_last(), b).push(s.last())
    } else {
        select(s.drop_last(), b)
    }
}

/// Position-wise same data.
pub open spec fn same_headers(a: Seq<TaskHeader>, b: Seq<TaskHeader>) -> bool {
    a.len() == b.len() && forall|i: int| 0 <= i < a.len() ==> same_header(#[trigger] a[i], b[i])
}

/// `ids` lists, once each, the ids of the headers satisfying the predicate
/// selected by `archived_only` (archived; or done or archived).
pub open spec fn id_set_of(ids: Seq<String>, hs: Seq<TaskHeader>, archived_only: bool) -> bool {
    &&& forall|a: int, b: int| 0 <= a < b < ids.len() ==> ids[a]@ != ids[b]@
    &&& forall|k: int| 0 <= k < ids.len() ==> has_done_id(hs, archived_only, #[trigger] ids[k]@)
    &&& forall|i: int| 0 <= i < hs.len() && counts_as_done(#[trigger] hs[i], archived_only) ==> ids_contain(ids, hs[i].id@)
}

/// Some header satisfying the predicate has id `x`.
pub open spec fn has_done_id(hs: Seq<TaskHeader>, archived_only: bool, x: Seq<char>) -> bool {
    exists|i: int| 0 <= i < hs.len() && counts_as_done(#[trigger] hs[i], archived_only) && hs[i].id@ == x
}

/// `ids` lists `x`.
pub open spec fn ids_contain(ids: Seq<String>, x: Seq<char>) -> bool {
    exists|k: int| 0 <= k < ids.len() && #[trigger] ids[k]@ == x
}

pub open spec fn counts_as_done(h: TaskHeader, archived_only: bool) -> bool {
    if archived_only {
        h.state is Archived
    } else {
        h.state is Archived || h.state is Done
    }
}

/// In a tick snapshot every integrated (archived) task also counts as done,
/// and every done or archived task is among the done ids, so a task that
/// depends on one sees the dependency finished.
pub proof fn law_integrated_tasks_are_done(integrated: Seq<String>, done: Seq<String>, hs: Seq<TaskHeader>)
    requires
        id_set_of(integrated, hs, true),
        id_set_of(done, hs, false),
    ensures
        forall|k: int| 0 <= k < integrated.len() ==> ids_contain(done, #[trigger] integrated[k]@),
        forall|i: int| 0 <= i < hs.len() && ((#[trigger] hs[i]).state is Done || hs[i].state is Archived)
            ==> ids_contain(done, hs[i].id@),
        forall|i: int| 0 <= i < hs.len() && (#[trigger] hs[i]).state is Archived ==> ids_contain(integrated, hs[i].id@),
{
    assert forall|k: int| 0 <= k < integrated.len() implies ids_contain(done, #[trigger] integrated[k]@) by {
        assert(has_done_id(hs, true, integrated[k]@));
        let i = choose|i: int| 0 <= i < hs.len() && counts_as_done(#[trigger] hs[i], true) && hs[i].id@ == integrated[k]@;
        assert(counts_as_done(hs[i], false));
    }
    assert forall|i: int| 0 <= i < hs.len() && ((#[trigger] hs[i]).state is Done || hs[i].state is Archived)
        implies ids_contain(done, hs[i].id@) by {
        assert(counts_as_done(hs[i], false));
    }
    assert forall|i: int| 0 <= i < hs.len() && (#[trigger] hs[i]).state is Archived implies ids_contain(integrated, hs[i].id@) by {
        assert(counts_as_done(hs[i], true));
    }
}

/// Tasks categorized once per orchestrator tick.
pub struct TickSnapshot {
    /// All headers, as given.
    pub all: Vec<TaskHeader>,
    /// Tasks waiting for worktree setup.
    pub awaiting_setup: Vec<TaskHeader>,
    /// Parents waiting on their children.
    pub waiting_parents: Vec<TaskHeader>,
    /// Tasks queued for an agent.
    pub idle_active: Vec<TaskHeader>,
    /// Done tasks with a worktree (integration candidates).
    pub idle_done_with_worktree: Vec<TaskHeader>,
    /// Whether any task is integrating.
    pub has_integrating: bool,
    /// Ids of archived tasks, once each.
    pub integrated_ids: Vec<String>,
    /// Ids of done or archived tasks, once each.
    pub done_ids: Vec<String>,
}

/// Adds `id` to `ids` unless an equal id is already there.
fn push_unique(ids: &mut Vec<String>, id: &String)
    ensures
        final(ids)@.len() >= old(ids)@.len(),
        forall|k: int| 0 <= k < old(ids)@.len() ==> final(ids)@[k] == old(ids)@[k],
        ids_contain(old(ids)@, id@) ==> final(ids)@ == old(ids)@,
        !ids_contain(old(ids)@, id@) ==> final(ids)@ == old(ids)@.push(*id),
{
    let mut k: usize = 0;
    while k < ids.len()
        invariant
            k <= ids.len(),
            ids@ == old(ids)@,
            forall|j: int| 0 <= j < k ==> ids@[j]@ != id@,
        decreases ids.len() - k,
    {
        if ids[k] == *id {
            return;
        }
        k = k + 1;
    }
    ids.push(id.clone());
}

impl TickSnapshot {
    /// Categorizes headers in one pass.
    #[verifier::rlimit(40)]
    pub fn build(headers: Vec<TaskHeader>) -> (r: TickSnapshot)
        ensures
            r.all == headers,
            same_headers(r.awaiting_setup@, select(headers@, Bucket::AwaitingSetup)),
            same_headers(r.waiting_parents@, select(headers@, Bucket::WaitingParents)),
            same_headers(r.idle_active@, select(headers@, Bucket::IdleActive)),
            same_headers(r.idle_done_with_worktree@, select(headers@, Bucket::IdleDoneWithWorktree)),
            r.has_integrating == exists|i: int| 0 <= i < headers@.len() && (#[trigger] headers@[i]).state is Integrating,
            id_set_of(r.integrated_ids@, headers@, true),
            id_set_of(r.done_ids@, headers@, false),
    {
        let mut awaiting_setup: Vec<TaskHeader> = Vec::new();
        let mut waiting_parents: Vec<TaskHeader> = Vec::new();
        let mut idle_active: Vec<TaskHeader> = Vec::new();
        let mut idle_done_with_worktree: Vec<TaskHeader> = Vec::new();
        let mut has_integrating = false;
        let mut integrated_ids: Vec<String> = Vec::new();
        let mut done_ids: Vec<String> = Vec::new();

        let mut i: usize = 0;
        while i < headers.len()
            invariant
                i <= headers.len(),
                same_headers(awaiting_setup@, select(headers@.take(i as int), Bucket::AwaitingSetup)),
                same_headers(waiting_parents@, select(headers@.take(i as int), Bucket::WaitingParents)),
                same_headers(idle_active@, select(headers@.take(i as int), Bucket::IdleActive)),
                same_headers(idle_done_with_worktree@, select(headers@.take(i as int), Bucket::IdleDoneWithWorktree)),
                has_integrating == exists|j: int| 0 <= j < i && (#[trigger] headers@[j]).state is Integrating,
                id_set_of(integrated_ids@, headers@.take(i as int), true),
                id_set_of(done_ids@, headers@.take(i as int), false),
            decreases headers.len() - i,
        {
            let h = &headers[i];
            let ghost pre = headers@.take(i as int);
            let ghost cur = headers@.take(i + 1);
            proof {
                assert(cur.drop_last() =~= pre);
                assert(cur.last() == headers@[i as int]);
            }
            let ghost old_integrated = integrated_ids@;
            let ghost old_done = done_ids@;
            record_ids(h, &mut integrated_ids, &mut done_ids);
            proof {
                lemma_id_set_step(old_integrated, integrated_ids@, pre, cur, true);
                lemma_id_set_step(old_done, done_ids@, pre, cur, false);
            }
            match h.state {
                TaskState::Integrating => {
                    has_integrating = true;
                },
                _ => {},
            }
            let ghost a0 = awaiting_setup@;
            let ghost w0 = waiting_parents@;
            let ghost q0 = idle_active@;
            let ghost d0 = idle_done_with_worktree@;
            file_header(h, &mut awaiting_setup, &mut waiting_parents, &mut idle_active, &mut idle_done_with_worktree);
            proof {
                lemma_select_step(a0, awaiting_setup@, cur, Bucket::AwaitingSetup);
                lemma_select_step(w0, waiting_parents@, cur, Bucket::WaitingParents);
                lemma_select_step(q0, idle_active@, cur, Bucket::IdleActive);
                lemma_select_step(d0, idle_done_with_worktree@, cur, Bucket::IdleDoneWithWorktree);
            }
            i = i + 1;
        }
        assert(headers@.take(headers@.len() as int) =~= headers@);
        TickSnapshot {
            all: headers,
            awaiting_setup,
            waiting_parents,
            idle_active,
            idle_done_with_worktree,
            has_integrating,
            integrated_ids,
            done_ids,
        }
    }

    /// No actionable tasks: every bucket is empty.
    pub fn is_idle(&self) -> (r: bool)
        ensures
            r == (self.awaiting_setup@.len() == 0 && self.waiting_parents@.len() == 0
                && self.idle_active@.len() == 0 && self.idle_done_with_worktree@.len() == 0),
    {
        self.awaiting_setup.len() == 0 && self.waiting_parents.len() == 0 && self.idle_active.len() == 0
            && self.idle_done_with_worktree.len() == 0
    }
}

/// Adds the header's id to the id lists it belongs to.
fn record_ids(h: &TaskHeader, integrated: &mut Vec<String>, done: &mut Vec<String>)
    ensures
        pushed_unique(old(integrated)@, final(integrated)@, *h, true),
        pushed_unique(old(done)@, final(done)@, *h, false),
{
    if h.is_archived() {
        push_unique(integrated, &h.id);
        push_unique(done, &h.id);
    } else if h.is_done() {
        push_unique(done, &h.id);
    }
}

/// `after` is `before` with the header's id appended when it qualifies and is new.
pub open spec fn pushed_unique(before: Seq<String>, after: Seq<String>, h: TaskHeader, archived_only: bool) -> bool {
    &&& after.len() >= before.len()
    &&& forall|k: int| 0 <= k < before.len() ==> after[k] == before[k]
    &&& counts_as_done(h, archived_only) ==> (
            (ids_contain(before, h.id@) ==> after == before)
            && (!ids_contain(before, h.id@) ==> after == before.push(h.id)))
    &&& !counts_as_done(h, archived_only) ==> after == before
}

/// Files the header into the bucket it belongs to.
fn file_header(
    h: &TaskHeader,
    awaiting_setup: &mut Vec<TaskHeader>,
    waiting_parents: &mut Vec<TaskHeader>,
    idle_active: &mut Vec<TaskHeader>,
    idle_done: &mut Vec<TaskHeader>,
)
    ensures
        filed(old(awaiting_setup)@, final(awaiting_setup)@, *h, Bucket::AwaitingSetup),
        filed(old(waiting_parents)@, final(waiting_parents)@, *h, Bucket::WaitingParents),
        filed(old(idle_active)@, final(idle_active)@, *h, Bucket::IdleActive),
        filed(old(idle_done)@, final(idle_done)@, *h, Bucket::IdleDoneWithWorktree),
{
    match h.state {
        TaskState::AwaitingSetup { .. } => {
            awaiting_setup.push(h.duplicate());
        },
        TaskState::WaitingOnChildren { .. } => {
            waiting_parents.push(h.duplicate());
        },
        TaskState::Queued { .. } => {
            idle_active.push(h.duplicate());
        },
        TaskState::Done => {
            if h.worktree_path.is_some() {
                idle_done.push(h.duplicate());
            }
        },
        _ => {},
    }
}

/// `after` is `before` plus a copy of `h` exactly when `h` belongs in `b`.
pub open spec fn filed(before: Seq<TaskHeader>, after: Seq<TaskHeader>, h: TaskHeader, b: Bucket) -> bool {
    &&& in_bucket(h, b) ==> after.len() > 0 && after == before.push(after.last()) && same_header(after.last(), h)
    &&& !in_bucket(h, b) ==> after == before
}

proof fn lemma_select_step(before: Seq<TaskHeader>, after: Seq<TaskHeader>, cur: Seq<TaskHeader>, b: Bucket)
    requires
        cur.len() > 0,
        same_headers(before, select(cur.drop_last(), b)),
        filed(before, after, cur.last(), b),
    ensures
        same_headers(after, select(cur, b)),
{
    if in_bucket(cur.last(), b) {
        let s = select(cur, b);
        assert(s == select(cur.drop_last(), b).push(cur.last()));
        assert forall|k: int| 0 <= k < after.len() implies same_header(#[trigger] after[k], s[k]) by {
            if k < before.len() {
                assert(after[k] == before[k]);
            }
        }
    }
}

proof fn lemma_id_set_step(before: Seq<String>, after: Seq<String>, pre: Seq<TaskHeader>, cur: Seq<TaskHeader>, archived_only: bool)
    requires
        cur.len() > 0,
        pre == cur.drop_last(),
        id_set_of(before, pre, archived_only),
        pushed_unique(before, after, cur.last(), archived_only),
    ensures
        id_set_of(after, cur, archived_only),
{
    let n = cur.len() - 1;
    assert forall|i: int| 0 <= i < n implies #[trigger] cur[i] == pre[i] by {}
    // every listed id comes from a qualifying header
    assert forall|k: int| 0 <= k < after.len() implies has_done_id(cur, archived_only, #[trigger] after[k]@) by {
        if k < before.len() {
            assert(after[k] == before[k]);
            let i = choose|i: int| 0 <= i < pre.len() && counts_as_done(#[trigger] pre[i], archived_only) && pre[i].id@ == before[k]@;
            assert(cur[i] == pre[i]);
            assert(counts_as_done(cur[i], archived_only) && cur[i].id@ == after[k]@);
        } else {
            assert(cur[n] == cur.last());
            assert(counts_as_done(cur.last(), archived_only));
            assert(!(exists|k: int| 0 <= k < before.len() && before[k]@ == cur.last().id@));
            assert(after == before.push(cur.last().id));
            assert(after[k] == cur.last().id);
            assert(counts_as_done(cur[n], archived_only) && cur[n].id@ == after[k]@);
        }
    }
    // every qualifying header is listed
    assert forall|i: int| 0 <= i < cur.len() && counts_as_done(#[trigger] cur[i], archived_only) implies ids_contain(after, cur[i].id@) by {
        if i < n {
            assert(cur[i] == pre[i]);
            let k = choose|k: int| 0 <= k < before.len() && before[k]@ == pre[i].id@;
            assert(after[k] == before[k]);
        } else {
            assert(cur[i] == cur.last());
            if exists|k: int| 0 <= k < before.len() && before[k]@ == cur.last().id@ {
                let k = choose|k: int| 0 <= k < before.len() && before[k]@ == cur.last().id@;
                assert(after[k] == before[k]);
            } else {
                assert(after[before.len() as int] == cur.last().id);
            }
        }
    }
    // no duplicates
    assert forall|a: int, b: int| 0 <= a < b < after.len() implies after[a]@ != after[b]@ by {
        assert(after[a] == before[a]);
        if b >= before.len() {
            assert(counts_as_done(cur.last(), archived_only));
            assert(!(exists|k: int| 0 <= k < before.len() && before[k]@ == cur.last().id@));
            assert(after == before.push(cur.last().id));
            assert(after[b] == cur.last().id);
            assert(!(0 <= a < before.len() && before[a]@ == cur.last().id@));
        } else {
            assert(after[b] == before[b]);
        }
    }
}

/// The text after the last occurrence of `c` (all of `s` if there is none).
pub open spec fn after_last(s: Seq<char>, c: char) -> Seq<char>
    decreases s.len(),
{
    if s.len() == 0 {
        s
    } else if s.last() == c {
        Seq::<char>::empty()
    } else {
        after_last(s.drop_last(), c).push(s.last())
    }
}

/// The last hyphen-separated word of a task id ("tunefully-cogent-bird" gives "bird").
pub fn extract_short_id(task_id: &str) -> (r: String)
    ensures
        r@ == after_last(task_id@, '-'),
{
    let v = chars_of(task_id);
    let mut start: usize = 0;
    let mut i: usize = 0;
    while i < v.len()
        invariant
            i <= v.len(),
            start <= i,
            v@.subrange(start as int, i as int) == after_last(v@.take(i as int), '-'),
        decreases v.len() - i,
    {
        let ghost t = v@.take(i + 1);
        assert(t.drop_last() =~= v@.take(i as int));
        assert(t.last() == v@[i as int]);
        if v[i] == '-' {
            start = i + 1;
            assert(v@.subrange(start as int, i + 1) =~= Seq::<char>::empty());
        } else {
            assert(v@.subrange(start as int, i + 1) =~= v@.subrange(start as int, i as int).push(v@[i as int]));
        }
        i = i + 1;
    }
    assert(v@.take(v.len() as int) =~= v@);
    string_from_chars(&v, start, v.len())
}

} // verus!
