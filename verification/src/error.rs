//! Error types of the storage and traffic layers.
use vstd::prelude::*;

verus! {

/// `std::io::Error`, carried through the library as a failure's source.
#[verifier::external_type_specification]
#[verifier::external_body]
pub struct ExIoError(std::io::Error);

/// `std::num::ParseIntError`, carried as a failure's source.
#[verifier::external_type_specification]
#[verifier::external_body]
pub struct ExParseIntError(std::num::ParseIntError);

/// Why the traffic collector failed.
#[derive(Debug)]
pub enum TrafficError {
    /// The collector could not run; the text says why.
    Collector(String),
    /// Reading a counter source failed.
    Io(std::io::Error),
    /// A counter could not be read as a number.
    Parse(std::num::ParseIntError),
}

/// Why the storage directory cannot be used.
#[derive(Debug)]
pub enum StorageError {
    /// The configured storage path is empty.
    EmptyPath,
    /// The storage path exists but is not a directory.
    PathIsNotDirectory(String),
    /// The storage directory could not be created.
    FailedToCreateDirectory { path: String, source: std::io::Error },
    /// The storage was initialized on mount point `expected`, which does not
    /// hold the storage path now; nothing is created, so that the root
    /// filesystem is never written by accident.
    MountMismatch { expected: String, found: String },
    /// The mount provider failed.
    MountProvider(std::io::Error),
}

} // verus!
