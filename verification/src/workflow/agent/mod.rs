//! What happens when an agent finishes or fails.

pub mod interactions;
