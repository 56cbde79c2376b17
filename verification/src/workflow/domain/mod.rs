//! Domain types for workflow tasks.

pub mod iteration;
pub mod log_entry;
pub mod question;
pub mod sorting;
pub mod stage_session;
pub mod task;
pub mod task_view;
