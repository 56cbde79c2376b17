//! Questions an agent asks, their options and answers.

use orkestra_core::workflow::domain::question::{Question, QuestionAnswer, QuestionOption};

#[test]
fn test_question_new() {
    let q = Question::new("q1", "What is the target framework?");
    assert_eq!(q.id, "q1");
    assert_eq!(q.question, "What is the target framework?");
    assert!(q.context.is_none());
    assert!(q.options.is_empty());
}

#[test]
fn test_question_with_context() {
    let q = Question::new("q1", "What framework?")
        .with_context("We need to know which framework to use for the implementation.");
    assert!(q.context.is_some());
    assert!(q.context.unwrap().contains("framework"));
}

#[test]
fn test_question_with_options() {
    let q = Question::new("q1", "Which database?").with_options(vec![
        QuestionOption::new("postgres", "PostgreSQL"),
        QuestionOption::new("mysql", "MySQL"),
        QuestionOption::new("sqlite", "SQLite"),
    ]);
    assert_eq!(q.options.len(), 3);
}

#[test]
fn test_question_option_with_description() {
    let opt = QuestionOption::new("postgres", "PostgreSQL")
        .with_description("Best for complex queries and JSONB support");
    assert!(opt.description.is_some());
}

#[test]
fn test_question_answer() {
    let answer =
        QuestionAnswer::new("q1", "What database?", "PostgreSQL", "2025-01-24T10:00:00Z");
    assert_eq!(answer.question_id, "q1");
    assert_eq!(answer.question, "What database?");
    assert_eq!(answer.answer, "PostgreSQL");
}
