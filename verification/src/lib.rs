//! NetWatch core: traffic accounting, storage safety and network discovery
//! logic for a Linux network monitoring daemon.

pub mod accounting;
pub mod api;
pub mod cli;
pub mod config;
pub mod config_file;
pub mod daemon;
pub mod database;
pub mod discovery;
pub mod error;
pub mod models;
pub mod paths;
pub mod project_content;
pub mod storage;
pub mod storage_mount;
pub mod text;
pub mod traffic;
