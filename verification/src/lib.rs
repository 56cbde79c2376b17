//! Orkestra core: the workflow domain, its configuration and the pure logic
//! around task lifecycles, verified with Verus.

pub mod text;
pub mod workflow;
pub mod testutil;
pub mod utility;
