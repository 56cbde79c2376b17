//! Where pending agent outputs are kept for crash recovery: one file per
//! task stage, `<task_id>_<stage>.json`, in `.orkestra/pending-outputs/`.

use vstd::prelude::*;

use crate::text::owned;
use crate::workflow::adapters::paths::{join_path, path_join, pending_file, pending_file_name};

verus! {

/// The crash recovery store's directory.
pub struct FsCrashRecoveryStore {
    dir: String,
}

impl FsCrashRecoveryStore {
    /// The directory pending outputs are kept in.
    pub closed spec fn directory(&self) -> Seq<char> {
        self.dir@
    }

    /// A store in `dir`.
    pub fn new(dir: &str) -> (r: FsCrashRecoveryStore)
        ensures
            r.directory() == dir@,
    {
        FsCrashRecoveryStore { dir: owned(dir) }
    }

    /// A store in `.orkestra/pending-outputs` under the project root.
    pub fn from_project_root(project_root: &str) -> (r: FsCrashRecoveryStore)
        ensures
            r.directory() == path_join(project_root@, ".orkestra/pending-outputs"@),
    {
        FsCrashRecoveryStore { dir: join_path(project_root, ".orkestra/pending-outputs") }
    }

    /// The directory, as text.
    pub fn dir(&self) -> (r: &str)
        ensures
            r@ == self.directory(),
    {
        self.dir.as_str()
    }

    /// The file of a task stage's pending output.
    pub fn output_path(&self, task_id: &str, stage: &str) -> (r: String)
        ensures
            r@ == path_join(self.directory(), pending_file_name(task_id@, stage@)),
    {
        let name = pending_file(task_id, stage);
        join_path(self.dir.as_str(), name.as_str())
    }
}

} // verus!
