//! Iterations: single attempts at completing a stage.

use vstd::prelude::*;

use crate::text::owned;
use crate::workflow::domain::question::QuestionAnswer;
use crate::workflow::runtime::{same_opt_outcome, same_outcome, Outcome};

verus! {

/// Why an iteration was created; decides the resume prompt.
#[derive(Debug, Clone, PartialEq)]
pub enum IterationTrigger {
    /// A human rejected the previous output.
    Feedback { feedback: String },
    /// An approving stage's agent sent work back to this stage.
    Rejection { from_stage: String, feedback: String },
    /// Integration (merge) failed.
    Integration { message: String, conflict_files: Vec<String> },
    /// A human answered questions.
    Answers { answers: Vec<QuestionAnswer> },
    /// The session was interrupted.
    Interrupted,
    /// A script stage failed and redirected to this stage.
    ScriptFailure { from_stage: String, error: String },
}

/// Two triggers hold the same data.
pub open spec fn same_trigger(a: IterationTrigger, b: IterationTrigger) -> bool {
    match (a, b) {
        (IterationTrigger::Integration { message: m1, conflict_files: f1 },
         IterationTrigger::Integration { message: m2, conflict_files: f2 }) => m1 == m2 && f1@ == f2@,
        (IterationTrigger::Answers { answers: a1 }, IterationTrigger::Answers { answers: a2 }) => a1@ == a2@,
        _ => a == b,
    }
}

pub open spec fn same_opt_trigger(a: Option<IterationTrigger>, b: Option<IterationTrigger>) -> bool {
    match (a, b) {
        (Some(x), Some(y)) => same_trigger(x, y),
        (None, None) => true,
        _ => false,
    }
}

/// One attempt at completing a stage.
#[derive(Debug, Clone, PartialEq)]
pub struct Iteration {
    pub id: String,
    pub task_id: String,
    pub stage: String,
    /// 1, 2, 3, ... within the stage.
    pub iteration_number: u32,
    pub started_at: String,
    pub ended_at: Option<String>,
    pub outcome: Option<Outcome>,
    pub stage_session_id: Option<String>,
    /// Why the iteration exists; `None` for the first iteration of a stage.
    pub incoming_context: Option<IterationTrigger>,
    /// Whether the trigger was delivered to the agent.
    pub trigger_delivered: bool,
}

/// Two iterations hold the same data.
pub open spec fn same_iteration(a: Iteration, b: Iteration) -> bool {
    &&& a.id == b.id
    &&& a.task_id == b.task_id
    &&& a.stage == b.stage
    &&& a.iteration_number == b.iteration_number
    &&& a.started_at == b.started_at
    &&& a.ended_at == b.ended_at
    &&& same_opt_outcome(a.outcome, b.outcome)
    &&& a.stage_session_id == b.stage_session_id
    &&& same_opt_trigger(a.incoming_context, b.incoming_context)
    &&& a.trigger_delivered == b.trigger_delivered
}

impl IterationTrigger {
    pub fn duplicate(&self) -> (r: IterationTrigger)
        ensures
            same_trigger(r, *self),
    {
        match self {
            IterationTrigger::Feedback { feedback } => IterationTrigger::Feedback { feedback: feedback.clone() },
            IterationTrigger::Rejection { from_stage, feedback } => IterationTrigger::Rejection {
                from_stage: from_stage.clone(),
                feedback: feedback.clone(),
            },
            IterationTrigger::Integration { message, conflict_files } => IterationTrigger::Integration {
                message: message.clone(),
                conflict_files: crate::workflow::runtime::clone_strings(conflict_files),
            },
            IterationTrigger::Answers { answers } => {
                let mut out: Vec<QuestionAnswer> = Vec::new();
                let mut i: usize = 0;
                while i < answers.len()
                    invariant
                        i <= answers.len(),
                        out@ == answers@.take(i as int),
                    decreases answers.len() - i,
                {
                    let a = &answers[i];
                    out.push(QuestionAnswer {
                        question_id: a.question_id.clone(),
                        question: a.question.clone(),
                        answer: a.answer.clone(),
                        answered_at: a.answered_at.clone(),
                    });
                    assert(answers@.take(i + 1) =~= answers@.take(i as int).push(answers@[i as int]));
                    i = i + 1;
                }
                assert(answers@.take(answers.len() as int) =~= answers@);
                IterationTrigger::Answers { answers: out }
            },
            IterationTrigger::Interrupted => IterationTrigger::Interrupted,
            IterationTrigger::ScriptFailure { from_stage, error } => IterationTrigger::ScriptFailure {
                from_stage: from_stage.clone(),
                error: error.clone(),
            },
        }
    }
}

impl Iteration {
    /// A fresh, active iteration.
    pub fn new(id: &str, task_id: &str, stage: &str, iteration_number: u32, started_at: &str) -> (r: Iteration)
        ensures
            r.id@ == id@,
            r.task_id@ == task_id@,
            r.stage@ == stage@,
            r.iteration_number == iteration_number,
            r.started_at@ == started_at@,
            r.ended_at is None,
            r.outcome is None,
            r.stage_session_id is None,
            r.incoming_context is None,
            !r.trigger_delivered,
    {
        Iteration {
            id: owned(id),
            task_id: owned(task_id),
            stage: owned(stage),
            iteration_number,
            started_at: owned(started_at),
            ended_at: None,
            outcome: None,
            stage_session_id: None,
            incoming_context: None,
            trigger_delivered: false,
        }
    }

    /// Builder: set why the iteration was created.
    pub fn with_context(self, context: IterationTrigger) -> (r: Iteration)
        ensures
            r == (Iteration { incoming_context: Some(context), ..self }),
    {
        Iteration { incoming_context: Some(context), ..self }
    }

    /// Builder: link the stage session.
    pub fn with_stage_session_id(self, stage_session_id: &str) -> (r: Iteration)
        ensures
            r.stage_session_id matches Some(s) && s@ == stage_session_id@,
            r == (Iteration { stage_session_id: r.stage_session_id, ..self }),
    {
        Iteration { stage_session_id: Some(owned(stage_session_id)), ..self }
    }

    /// Still running (not ended).
    pub fn is_active(&self) -> (r: bool)
        ensures
            r == (self.ended_at is None),
    {
        self.ended_at.is_none()
    }

    /// Ended with output ready for review (no outcome yet).
    pub fn is_awaiting_review(&self) -> (r: bool)
        ensures
            r == (self.ended_at is Some && self.outcome is None),
    {
        self.ended_at.is_some() && self.outcome.is_none()
    }

    /// Ends the iteration with an outcome.
    pub fn end(&mut self, ended_at: &str, outcome: Outcome)
        ensures
            final(self).ended_at matches Some(e) && e@ == ended_at@,
            final(self).outcome == Some(outcome),
            *final(self) == (Iteration { ended_at: final(self).ended_at, outcome: Some(outcome), ..*old(self) }),
    {
        self.ended_at = Some(owned(ended_at));
        self.outcome = Some(outcome);
    }

    /// The outcome, once the iteration has ended.
    pub fn outcome(&self) -> (r: Option<&Outcome>)
        ensures
            match self.outcome {
                Some(o) => r == Some(&o),
                None => r is None,
            },
    {
        self.outcome.as_ref()
    }

    /// A copy holding the same data.
    pub fn duplicate(&self) -> (r: Iteration)
        ensures
            same_iteration(r, *self),
    {
        let outcome = match &self.outcome {
            Some(o) => Some(o.duplicate()),
            None => None,
        };
        let incoming_context = match &self.incoming_context {
            Some(c) => Some(c.duplicate()),
            None => None,
        };
        Iteration {
            id: self.id.clone(),
            task_id: self.task_id.clone(),
            stage: self.stage.clone(),
            iteration_number: self.iteration_number,
            started_at: self.started_at.clone(),
            ended_at: crate::workflow::runtime::clone_opt_string(&self.ended_at),
            outcome,
            stage_session_id: crate::workflow::runtime::clone_opt_string(&self.stage_session_id),
            incoming_context,
            trigger_delivered: self.trigger_delivered,
        }
    }
}

} // verus!
