//! Pull requests on GitHub through the `gh` CLI: the errors, and the service
//! (the CLI itself is run by the application).

use vstd::prelude::*;

verus! {

/// Why a pull request operation failed.
#[derive(Debug, Clone, PartialEq, Eq)]
pub enum PrError {
    /// The `gh` CLI is not installed.
    CliNotFound,
    /// Reading pull request data failed.
    ReadFailed(String),
    /// Creating a pull request failed.
    CreationFailed(String),
}

/// The GitHub pull request service.
#[derive(Debug, Clone, Copy, PartialEq, Eq, Structural)]
pub struct GhPrService;

impl GhPrService {
    pub fn new() -> (r: GhPrService)
        ensures
            r == GhPrService,
    {
        GhPrService
    }
}

impl Default for GhPrService {
    fn default() -> (r: GhPrService)
        ensures
            r == GhPrService,
    {
        GhPrService::new()
    }
}

} // verus!
