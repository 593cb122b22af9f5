//! Where the configuration file lives.
use vstd::prelude::*;

use crate::config::{netwatch_dir_in, NetWatchConfig};
use crate::paths::{join_path, path_join};

verus! {

/// The NetWatch configuration file.
pub struct ConfigFile;

/// The configuration file inside configuration directory `directory`.
pub open spec fn config_file_in(directory: Option<Seq<char>>) -> Option<Seq<char>> {
    match directory {
        Some(d) => Some(path_join(d, "config.toml"@)),
        None => None,
    }
}

impl ConfigFile {
    /// The configuration file `config.toml` inside `config_directory`.
    pub fn path_in(config_directory: Option<String>) -> (r: Option<String>)
        ensures
            r.deep_view() == config_file_in(config_directory.deep_view()),
    {
        proof {
            reveal_strlit("config.toml");
        }
        match config_directory {
            Some(d) => Some(join_path(d.as_str(), "config.toml")),
            None => None,
        }
    }

    /// The default configuration file: `config.toml` in the default
    /// configuration directory, when the environment gives one.
    pub fn default_path() -> (r: Option<String>)
        ensures
            exists|base: Option<Seq<char>>|
                r.deep_view() == config_file_in(netwatch_dir_in(base)),
    {
        let directory = NetWatchConfig::default_config_directory();
        Self::path_in(directory)
    }
}

} // verus!
