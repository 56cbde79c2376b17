//! The workflow system: domain types, configuration, adapters and the
//! interactions that move tasks through stages.

pub mod adapters;
pub mod agent;
pub mod api;
pub mod assistant;
pub mod auto_resolve;
pub mod clock;
pub mod config;
pub mod domain;
pub mod ports;
pub mod runtime;
