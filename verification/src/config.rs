//! NetWatch runtime configuration.
use vstd::prelude::*;

use crate::error::StorageError;
use crate::paths::{join_path, path_join};

verus! {

/// Where NetWatch keeps its data.
#[derive(Debug, Clone, PartialEq, Eq)]
pub struct StorageConfig {
    /// The storage directory.
    pub path: String,
    /// The mount point that held the storage directory when it was set up.
    pub expected_mount_point: Option<String>,
}

/// The NetWatch configuration.
#[derive(Debug, Clone, PartialEq, Eq)]
pub struct NetWatchConfig {
    pub storage: StorageConfig,
}

/// What the filesystem shows at a path when it is inspected.
#[derive(Debug, Clone, Copy, PartialEq, Eq, Structural)]
pub struct PathState {
    /// Something exists at the path.
    pub exists: bool,
    /// What exists at the path is a directory.
    pub is_dir: bool,
}

/// The outcome of validating storage path `path` in filesystem state `state`.
pub open spec fn storage_path_ok(path: Seq<char>, state: PathState) -> bool {
    path.len() > 0 && !(state.exists && !state.is_dir)
}

/// Whether `path` can serve as the storage directory in filesystem state
/// `state`.
pub(crate) fn storage_path_ok_exec(path: &str, state: PathState) -> (r: bool)
    ensures
        r == storage_path_ok(path@, state),
{
    !path.is_empty() && !(state.exists && !state.is_dir)
}

/// Checks that `path` can serve as the storage directory: it is not empty,
/// and if something exists there (as `state` reports), it is a directory.
pub fn validate_storage_path(path: &str, state: PathState) -> (r: Result<(), StorageError>)
    ensures
        r is Ok <==> storage_path_ok(path@, state),
        r is Err ==> (match r->Err_0 {
            StorageError::EmptyPath => path@.len() == 0,
            StorageError::PathIsNotDirectory(p) => path@.len() > 0 && state.exists
                && !state.is_dir && p@ == path@,
            _ => false,
        }),
{
    if path.is_empty() {
        return Err(StorageError::EmptyPath);
    }
    if state.exists && !state.is_dir {
        return Err(StorageError::PathIsNotDirectory(path.to_owned()));
    }
    Ok(())
}

/// Calls `dirs::data_local_dir`, the user's local data directory as the
/// environment gives it (on Linux `$XDG_DATA_HOME`, else
/// `$HOME/.local/share`). Nothing is promised of the result: it depends on
/// the environment. A path that is not UTF-8 is converted lossily.
#[verifier::external_body]
fn data_local_dir() -> Option<String> {
    match dirs::data_local_dir() {
        Some(p) => Some(p.to_string_lossy().into_owned()),
        None => None,
    }
}

/// Calls `dirs::config_dir`, the user's configuration directory as the
/// environment gives it (on Linux `$XDG_CONFIG_HOME`, else
/// `$HOME/.config`). Nothing is promised of the result: it depends on the
/// environment. A path that is not UTF-8 is converted lossily.
#[verifier::external_body]
fn config_dir() -> Option<String> {
    match dirs::config_dir() {
        Some(p) => Some(p.to_string_lossy().into_owned()),
        None => None,
    }
}

/// The NetWatch directory inside `base`, if `base` is known.
pub open spec fn netwatch_dir_in(base: Option<Seq<char>>) -> Option<Seq<char>> {
    match base {
        Some(b) => Some(path_join(b, "netwatch"@)),
        None => None,
    }
}

/// The NetWatch directory inside `base`.
fn netwatch_dir(base: Option<String>) -> (r: Option<String>)
    ensures
        r.deep_view() == netwatch_dir_in(base.deep_view()),
{
    proof {
        reveal_strlit("netwatch");
    }
    match base {
        Some(b) => Some(join_path(b.as_str(), "netwatch")),
        None => None,
    }
}

impl NetWatchConfig {
    /// A configuration that stores data in `storage_path`.
    pub fn new(storage_path: String, expected_mount_point: Option<String>) -> (r: Self)
        ensures
            r.storage.path == storage_path,
            r.storage.expected_mount_point == expected_mount_point,
    {
        NetWatchConfig { storage: StorageConfig { path: storage_path, expected_mount_point } }
    }

    /// The default storage directory when the local data directory is
    /// `data_dir`: its `netwatch` subdirectory.
    pub fn storage_path_in(data_dir: Option<String>) -> (r: Option<String>)
        ensures
            r.deep_view() == netwatch_dir_in(data_dir.deep_view()),
    {
        netwatch_dir(data_dir)
    }

    /// The configuration directory when the user configuration directory is
    /// `config_dir`: its `netwatch` subdirectory.
    pub fn config_directory_in(config_dir: Option<String>) -> (r: Option<String>)
        ensures
            r.deep_view() == netwatch_dir_in(config_dir.deep_view()),
    {
        netwatch_dir(config_dir)
    }

    /// The default storage directory: `netwatch` in the user's local data
    /// directory, when the environment gives one.
    pub fn default_storage_path() -> (r: Option<String>)
        ensures
            exists|base: Option<Seq<char>>| r.deep_view() == netwatch_dir_in(base),
    {
        let base = data_local_dir();
        Self::storage_path_in(base)
    }

    /// The default configuration directory: `netwatch` in the user's
    /// configuration directory, when the environment gives one.
    pub fn default_config_directory() -> (r: Option<String>)
        ensures
            exists|base: Option<Seq<char>>| r.deep_view() == netwatch_dir_in(base),
    {
        let base = config_dir();
        Self::config_directory_in(base)
    }

    /// Checks the configured storage path against filesystem state `state`.
    pub fn validate_storage_path(&self, state: PathState) -> (r: Result<(), StorageError>)
        ensures
            r is Ok <==> storage_path_ok(self.storage.path@, state),
            r is Err ==> (match r->Err_0 {
                StorageError::EmptyPath => self.storage.path@.len() == 0,
                StorageError::PathIsNotDirectory(p) => self.storage.path@.len() > 0
                    && state.exists && !state.is_dir && p@ == self.storage.path@,
                _ => false,
            }),
    {
        validate_storage_path(self.storage.path.as_str(), state)
    }
}

} // verus!
