//! Questions a stage asks before producing its artifact, and their answers.

use vstd::prelude::*;

use crate::text::owned;
use crate::workflow::runtime::clone_opt_string;

verus! {

/// A question from a stage asking for clarification.
#[derive(Debug, Clone, PartialEq)]
pub struct Question {
    pub id: String,
    pub question: String,
    pub context: Option<String>,
    /// Predefined answers; the UI adds a free-form "Other" option itself.
    pub options: Vec<QuestionOption>,
}

impl Question {
    /// A question with no context and no options.
    pub fn new(id: &str, question: &str) -> (r: Question)
        ensures
            r.id@ == id@,
            r.question@ == question@,
            r.context is None,
            r.options@.len() == 0,
    {
        Question { id: owned(id), question: owned(question), context: None, options: Vec::new() }
    }

    /// Builder: set the context.
    pub fn with_context(self, context: &str) -> (r: Question)
        ensures
            r.id == self.id,
            r.question == self.question,
            r.context matches Some(c) && c@ == context@,
            r.options == self.options,
    {
        Question { context: Some(owned(context)), ..self }
    }

    /// Builder: replace the options.
    pub fn with_options(self, options: Vec<QuestionOption>) -> (r: Question)
        ensures
            r.id == self.id,
            r.question == self.question,
            r.context == self.context,
            r.options == options,
    {
        Question { options, ..self }
    }

    /// Builder: append one option.
    pub fn with_option(self, id: &str, label: &str, description: Option<&str>) -> (r: Question)
        ensures
            r.id == self.id,
            r.question == self.question,
            r.context == self.context,
            r.options@.len() == self.options@.len() + 1,
            r.options@.drop_last() == self.options@,
            r.options@.last().id@ == id@,
            r.options@.last().label@ == label@,
            match description {
                Some(d) => r.options@.last().description matches Some(x) && x@ == d@,
                None => r.options@.last().description is None,
            },
    {
        let mut option = QuestionOption::new(id, label);
        if let Some(desc) = description {
            option = option.with_description(desc);
        }
        let mut q = self;
        q.options.push(option);
        proof {
            assert(q.options@.drop_last() =~= self.options@);
        }
        q
    }

    pub fn duplicate(&self) -> (r: Question)
        ensures
            same_question(r, *self),
    {
        let mut options: Vec<QuestionOption> = Vec::new();
        let mut i: usize = 0;
        while i < self.options.len()
            invariant
                i <= self.options.len(),
                options@ == self.options@.take(i as int),
            decreases self.options.len() - i,
        {
            options.push(self.options[i].duplicate());
            assert(self.options@.take(i + 1) =~= self.options@.take(i as int).push(self.options@[i as int]));
            i = i + 1;
        }
        assert(self.options@.take(self.options.len() as int) =~= self.options@);
        let r = Question {
            id: self.id.clone(),
            question: self.question.clone(),
            context: clone_opt_string(&self.context),
            options,
        };
        r
    }
}

/// Two questions hold the same data.
pub open spec fn same_question(a: Question, b: Question) -> bool {
    a.id == b.id && a.question == b.question && a.context == b.context && a.options@ == b.options@
}

/// Two lists of questions hold the same data, position by position.
pub open spec fn same_questions(a: Seq<Question>, b: Seq<Question>) -> bool {
    a.len() == b.len() && forall|i: int| 0 <= i < a.len() ==> same_question(#[trigger] a[i], b[i])
}

/// A copy of a list of questions.
pub fn clone_questions(v: &Vec<Question>) -> (r: Vec<Question>)
    ensures
        same_questions(r@, v@),
{
    let mut r: Vec<Question> = Vec::new();
    let mut i: usize = 0;
    while i < v.len()
        invariant
            i <= v.len(),
            r@.len() == i,
            forall|k: int| 0 <= k < i ==> same_question(#[trigger] r@[k], v@[k]),
        decreases v.len() - i,
    {
        r.push(v[i].duplicate());
        i = i + 1;
    }
    r
}

/// An option of a multiple-choice question.
#[derive(Debug, Clone, PartialEq)]
pub struct QuestionOption {
    pub id: String,
    pub label: String,
    pub description: Option<String>,
}

impl QuestionOption {
    pub fn new(id: &str, label: &str) -> (r: QuestionOption)
        ensures
            r.id@ == id@,
            r.label@ == label@,
            r.description is None,
    {
        QuestionOption { id: owned(id), label: owned(label), description: None }
    }

    /// Builder: set the description.
    pub fn with_description(self, description: &str) -> (r: QuestionOption)
        ensures
            r.id == self.id,
            r.label == self.label,
            r.description matches Some(d) && d@ == description@,
    {
        QuestionOption { description: Some(owned(description)), ..self }
    }

    pub fn duplicate(&self) -> (r: QuestionOption)
        ensures
            r == *self,
    {
        QuestionOption {
            id: self.id.clone(),
            label: self.label.clone(),
            description: clone_opt_string(&self.description),
        }
    }
}

/// An answer to a question.
#[derive(Debug, Clone, PartialEq)]
pub struct QuestionAnswer {
    pub question_id: String,
    /// The question text, kept for prompt context.
    pub question: String,
    pub answer: String,
    pub answered_at: String,
}

impl QuestionAnswer {
    pub fn new(question_id: &str, question: &str, answer: &str, answered_at: &str) -> (r: QuestionAnswer)
        ensures
            r.question_id@ == question_id@,
            r.question@ == question@,
            r.answer@ == answer@,
            r.answered_at@ == answered_at@,
    {
        QuestionAnswer {
            question_id: owned(question_id),
            question: owned(question),
            answer: owned(answer),
            answered_at: owned(answered_at),
        }
    }
}

} // verus!
