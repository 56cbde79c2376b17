//! Stage sessions: one agent conversation shared by all iterations of a
//! task's stage.

use vstd::prelude::*;

use crate::text::owned;
use crate::workflow::runtime::clone_opt_string;

verus! {

/// State of a stage session.
#[derive(Debug, Clone, Copy, PartialEq, Eq, Structural)]
pub enum SessionState {
    /// Spawn in progress.
    Spawning,
    /// Agent running or waiting to resume.
    Active,
    /// Stage approved.
    Completed,
    /// Task failed, blocked, or restaged.
    Abandoned,
    /// Replaced by a newer session for the same stage.
    Superseded,
}

/// Storage text of a session state.
pub open spec fn session_state_text(s: SessionState) -> Seq<char> {
    match s {
        SessionState::Spawning => "spawning"@,
        SessionState::Active => "active"@,
        SessionState::Completed => "completed"@,
        SessionState::Abandoned => "abandoned"@,
        SessionState::Superseded => "superseded"@,
    }
}

/// Session state named by storage text; unknown text reads as `Active`.
pub open spec fn session_state_from_text(s: Seq<char>) -> SessionState {
    if s == "spawning"@ {
        SessionState::Spawning
    } else if s == "completed"@ {
        SessionState::Completed
    } else if s == "abandoned"@ {
        SessionState::Abandoned
    } else if s == "superseded"@ {
        SessionState::Superseded
    } else {
        SessionState::Active
    }
}

/// Storage text of a session state.
pub fn session_state_to_str(state: SessionState) -> (r: &'static str)
    ensures
        r@ == session_state_text(state),
{
    match state {
        SessionState::Spawning => "spawning",
        SessionState::Active => "active",
        SessionState::Completed => "completed",
        SessionState::Abandoned => "abandoned",
        SessionState::Superseded => "superseded",
    }
}

/// Session state named by storage text; unknown text reads as `Active`.
pub fn parse_session_state(s: &str) -> (r: SessionState)
    ensures
        r == session_state_from_text(s@),
{
    if crate::text::str_eq(s, "spawning") {
        SessionState::Spawning
    } else if crate::text::str_eq(s, "completed") {
        SessionState::Completed
    } else if crate::text::str_eq(s, "abandoned") {
        SessionState::Abandoned
    } else if crate::text::str_eq(s, "superseded") {
        SessionState::Superseded
    } else {
        SessionState::Active
    }
}

/// Reading back the storage text of a session state gives the same state.
pub proof fn law_session_state_round_trip(s: SessionState)
    ensures
        session_state_from_text(session_state_text(s)) == s,
{
    reveal_strlit("spawning");
    reveal_strlit("active");
    reveal_strlit("completed");
    reveal_strlit("abandoned");
    reveal_strlit("superseded");
    assert("spawning"@.len() == 8);
    assert("active"@.len() == 6);
    assert("completed"@.len() == 9);
    assert("abandoned"@.len() == 9);
    assert("superseded"@.len() == 10);
    assert("completed"@ != "abandoned"@) by {
        assert("completed"@[0] != "abandoned"@[0]);
    }
}

/// The agent conversation for one task and stage, kept across iterations.
#[derive(Debug, Clone, PartialEq)]
pub struct StageSession {
    pub id: String,
    pub task_id: String,
    pub stage: String,
    /// Agent session id, captured on the first spawn and reused on resumes.
    pub claude_session_id: Option<String>,
    /// Running agent process, if any.
    pub agent_pid: Option<u32>,
    /// How many times the session was resumed.
    pub resume_count: u32,
    pub session_state: SessionState,
    pub created_at: String,
    pub updated_at: String,
}

impl StageSession {
    /// A new active session with no agent.
    pub fn new(id: &str, task_id: &str, stage: &str, created_at: &str) -> (r: StageSession)
        ensures
            r.id@ == id@,
            r.task_id@ == task_id@,
            r.stage@ == stage@,
            r.claude_session_id is None,
            r.agent_pid is None,
            r.resume_count == 0,
            r.session_state == SessionState::Active,
            r.created_at@ == created_at@,
            r.updated_at@ == created_at@,
    {
        StageSession {
            id: owned(id),
            task_id: owned(task_id),
            stage: owned(stage),
            claude_session_id: None,
            agent_pid: None,
            resume_count: 0,
            session_state: SessionState::Active,
            created_at: owned(created_at),
            updated_at: owned(created_at),
        }
    }

    pub open spec fn spec_can_resume(&self) -> bool {
        self.claude_session_id is Some && self.session_state == SessionState::Active
    }

    /// Has an agent session id and is still active.
    pub fn can_resume(&self) -> (r: bool)
        ensures
            r == self.spec_can_resume(),
    {
        self.claude_session_id.is_some() && self.session_state == SessionState::Active
    }

    /// An agent process is running.
    pub fn has_agent(&self) -> (r: bool)
        ensures
            r == (self.agent_pid is Some),
    {
        self.agent_pid.is_some()
    }

    /// The session is active.
    pub fn is_active(&self) -> (r: bool)
        ensures
            r == (self.session_state == SessionState::Active),
    {
        self.session_state == SessionState::Active
    }

    /// Marks the session completed (stage approved).
    pub fn complete(&mut self, updated_at: &str)
        ensures
            final(self).session_state == SessionState::Completed,
            final(self).agent_pid is None,
            final(self).updated_at@ == updated_at@,
            final(self).id == old(self).id,
            final(self).task_id == old(self).task_id,
            final(self).stage == old(self).stage,
            final(self).claude_session_id == old(self).claude_session_id,
            final(self).resume_count == old(self).resume_count,
            final(self).created_at == old(self).created_at,
    {
        self.session_state = SessionState::Completed;
        self.agent_pid = None;
        self.updated_at = owned(updated_at);
    }

    /// Marks the session abandoned (task failed, blocked, or restaged).
    pub fn abandon(&mut self, updated_at: &str)
        ensures
            final(self).session_state == SessionState::Abandoned,
            final(self).agent_pid is None,
            final(self).updated_at@ == updated_at@,
            final(self).id == old(self).id,
            final(self).task_id == old(self).task_id,
            final(self).stage == old(self).stage,
            final(self).claude_session_id == old(self).claude_session_id,
            final(self).resume_count == old(self).resume_count,
            final(self).created_at == old(self).created_at,
    {
        self.session_state = SessionState::Abandoned;
        self.agent_pid = None;
        self.updated_at = owned(updated_at);
    }

    /// Records a spawned agent. The first spawn captures the agent session
    /// id; later spawns are resumes and are counted.
    pub fn agent_spawned(&mut self, pid: u32, claude_session_id: Option<String>, updated_at: &str)
        requires
            old(self).claude_session_id is Some ==> old(self).resume_count < u32::MAX,
        ensures
            final(self).agent_pid == Some(pid),
            old(self).claude_session_id is None ==> final(self).claude_session_id == claude_session_id
                && final(self).resume_count == old(self).resume_count,
            old(self).claude_session_id is Some ==> final(self).claude_session_id == old(self).claude_session_id
                && final(self).resume_count == old(self).resume_count + 1,
            final(self).updated_at@ == updated_at@,
            final(self).id == old(self).id,
            final(self).task_id == old(self).task_id,
            final(self).stage == old(self).stage,
            final(self).session_state == old(self).session_state,
            final(self).created_at == old(self).created_at,
    {
        self.agent_pid = Some(pid);
        if self.claude_session_id.is_none() {
            self.claude_session_id = claude_session_id;
        } else {
            self.resume_count = self.resume_count + 1;
        }
        self.updated_at = owned(updated_at);
    }

    /// Records that the agent process ended.
    pub fn agent_finished(&mut self, updated_at: &str)
        ensures
            final(self).agent_pid is None,
            final(self).updated_at@ == updated_at@,
            final(self).id == old(self).id,
            final(self).task_id == old(self).task_id,
            final(self).stage == old(self).stage,
            final(self).claude_session_id == old(self).claude_session_id,
            final(self).resume_count == old(self).resume_count,
            final(self).session_state == old(self).session_state,
            final(self).created_at == old(self).created_at,
    {
        self.agent_pid = None;
        self.updated_at = owned(updated_at);
    }

    /// A copy equal to `self`.
    pub fn duplicate(&self) -> (r: StageSession)
        ensures
            r == *self,
    {
        StageSession {
            id: self.id.clone(),
            task_id: self.task_id.clone(),
            stage: self.stage.clone(),
            claude_session_id: clone_opt_string(&self.claude_session_id),
            agent_pid: self.agent_pid,
            resume_count: self.resume_count,
            session_state: self.session_state,
            created_at: self.created_at.clone(),
            updated_at: self.updated_at.clone(),
        }
    }
}

} // verus!
