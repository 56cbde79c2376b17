//! The assistant chat: how a finished agent run is judged and reported.

pub mod service;
pub mod task_message;
