//! Test scaffolding: fixtures that populate a store, and mocks of the task
//! store and the agent process spawner.

pub mod fixtures;
pub mod mock_spawner;
pub mod mock_store;
