//! Automatic resolution of pull request feedback.

pub mod interactions;
