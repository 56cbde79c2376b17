//! Auto-resolve interactions.

pub mod find_candidates;
pub mod trigger_feedback;
