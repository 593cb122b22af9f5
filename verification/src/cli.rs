//! Command-line options of the daemon.
use vstd::prelude::*;

verus! {

/// The options the daemon is started with.
#[derive(Debug, Clone, PartialEq, Eq)]
pub struct CliOptions {
    /// Initialize or override the storage path.
    pub storage_path: Option<String>,
}

impl Default for CliOptions {
    fn default() -> (r: Self)
        ensures
            r.storage_path is None,
    {
        CliOptions { storage_path: None }
    }
}

} // verus!
