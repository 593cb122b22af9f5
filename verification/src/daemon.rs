//! The daemon's start-up decisions: where its configuration comes from.
use vstd::prelude::*;

use crate::cli::CliOptions;
use crate::config::NetWatchConfig;
use crate::storage_mount::{MountInfo, MountProvider};

verus! {

/// Where the daemon's configuration comes from.
#[derive(Debug, Clone, PartialEq, Eq)]
pub enum ConfigSource {
    /// A storage path given on the command line (it overrides the file).
    CommandLine(String),
    /// The configuration file.
    File,
    /// Neither: the daemon cannot start until a storage path is given.
    Missing,
}

/// Where the configuration comes from, given the command-line options and
/// whether the configuration file exists: a storage path on the command line
/// wins, then the file.
pub fn config_source(cli: &CliOptions, config_file_exists: bool) -> (r: ConfigSource)
    ensures
        match cli.storage_path {
            Some(p) => r == ConfigSource::CommandLine(p),
            None => if config_file_exists {
                r == ConfigSource::File
            } else {
                r == ConfigSource::Missing
            },
        },
{
    match &cli.storage_path {
        Some(p) => ConfigSource::CommandLine(p.clone()),
        None => if config_file_exists {
            ConfigSource::File
        } else {
            ConfigSource::Missing
        },
    }
}

/// The mount point that the mount provider's `answer` names: none when it
/// names no mount or fails.
pub open spec fn answered_mount_point(answer: Result<Option<MountInfo>, std::io::Error>) -> Option<
    String,
> {
    match answer {
        Ok(Some(m)) => Some(m.mount_point),
        _ => None,
    }
}

impl NetWatchConfig {
    /// The configuration for storage path `storage_path` when the mount
    /// provider answered `answer` about it: the storage is expected on the
    /// mount it named (none when it named none or failed).
    pub fn config_for_mount(
        storage_path: String,
        answer: Result<Option<MountInfo>, std::io::Error>,
    ) -> (r: NetWatchConfig)
        ensures
            r.storage.path == storage_path,
            r.storage.expected_mount_point == answered_mount_point(answer),
    {
        let mount_point = match answer {
            Ok(Some(m)) => Some(m.mount_point),
            Ok(None) => None,
            Err(_) => None,
        };
        NetWatchConfig::new(storage_path, mount_point)
    }

    /// The configuration for a storage path given on the command line: the
    /// mount provider is asked which mount holds the path, and
    /// `config_for_mount` records it as the expected mount point.
    pub fn for_storage_path<M: MountProvider>(storage_path: String, mount_provider: &M) -> (r:
        NetWatchConfig)
        ensures
            r.storage.path == storage_path,
            exists|answer: Result<Option<MountInfo>, std::io::Error>|
                mount_provider.answers(storage_path@, answer)
                    && r.storage.expected_mount_point == answered_mount_point(answer),
    {
        let answer = mount_provider.mount_for_path(storage_path.as_str());
        Self::config_for_mount(storage_path, answer)
    }
}

} // verus!
