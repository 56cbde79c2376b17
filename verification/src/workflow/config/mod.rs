//! Workflow configuration.

pub mod auto_task;
pub mod flow_map;
pub mod loader;
pub mod messages;
pub mod stage;
pub mod technique;
pub mod validation;
pub mod workflow;
