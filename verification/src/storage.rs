//! The storage directory and its mount-safety checks.
use vstd::prelude::*;

use crate::config::{
    storage_path_ok, storage_path_ok_exec, validate_storage_path, PathState, StorageConfig,
};
use crate::error::StorageError;
use crate::paths::{parent_path, path_parent, paths_equal, same_path};
use crate::storage_mount::{MountInfo, MountProvider};

verus! {

/// Whether the storage directory can be used now.
#[derive(Debug, Clone, Copy, PartialEq, Eq, Structural)]
pub enum StorageStatus {
    Available,
    Missing,
    NotMounted,
}

/// The storage directory in use.
pub struct StorageManager {
    path: String,
    create_directory: bool,
}

/// The path whose mount is compared with the expected mount point: the
/// storage path itself when it exists, else its parent, else the root.
pub open spec fn mount_check_path(path: Seq<char>, exists: bool) -> Seq<char> {
    if exists {
        path
    } else {
        match path_parent(path) {
            Some(p) => p,
            None => "/"@,
        }
    }
}

/// Whether the mount `found` is the expected mount point (the same path).
pub open spec fn mount_matches(found: Option<MountInfo>, expected: Seq<char>) -> bool {
    match found {
        Some(m) => same_path(m.mount_point@, expected),
        None => false,
    }
}

/// The text that a mount mismatch reports as found.
pub open spec fn mismatch_found_text() -> Seq<char> {
    "unmounted or mismatched"@
}

/// Whether `err` is the error that validating `path` in `state` gives.
pub open spec fn is_validation_error(path: Seq<char>, state: PathState, err: StorageError) -> bool {
    match err {
        StorageError::EmptyPath => path.len() == 0,
        StorageError::PathIsNotDirectory(p) => path.len() > 0 && state.exists && !state.is_dir
            && p@ == path,
        _ => false,
    }
}

/// Whether the mount provider's `answer` names the expected mount point.
pub open spec fn answer_matches(
    answer: Result<Option<MountInfo>, std::io::Error>,
    expected: Seq<char>,
) -> bool {
    match answer {
        Ok(found) => mount_matches(found, expected),
        Err(_) => false,
    }
}

/// The status of a storage directory whose filesystem state is `state`,
/// when `expected` is the expected mount point and `answer` what the mount
/// provider answered about the directory: not mounted when a mount point is
/// expected and the answer is not that mount (a failure included), else
/// missing unless a directory is there, else available.
pub open spec fn status_spec(
    expected: Option<Seq<char>>,
    answer: Result<Option<MountInfo>, std::io::Error>,
    state: PathState,
) -> StorageStatus {
    if expected is Some && !answer_matches(answer, expected->0) {
        StorageStatus::NotMounted
    } else if !state.exists || !state.is_dir {
        StorageStatus::Missing
    } else {
        StorageStatus::Available
    }
}

/// Whether `r` is what opening the storage of `config`, in filesystem state
/// `state`, gives when the mount provider answered `answer` (an answer that
/// is only read when the path is valid and a mount point is expected).
pub open spec fn opened_from(
    config: StorageConfig,
    state: PathState,
    answer: Result<Option<MountInfo>, std::io::Error>,
    r: Result<StorageManager, StorageError>,
) -> bool {
    if !storage_path_ok(config.path@, state) {
        r is Err && is_validation_error(config.path@, state, r->Err_0)
    } else if config.expected_mount_point is Some && !answer_matches(
        answer,
        config.expected_mount_point->0@,
    ) {
        match answer {
            Err(e) => r == Err::<StorageManager, StorageError>(StorageError::MountProvider(e)),
            Ok(_) => r matches Err(StorageError::MountMismatch { expected: x, found: f }) && x@
                == config.expected_mount_point->0@ && f@ == mismatch_found_text(),
        }
    } else {
        r matches Ok(m) && m.path_view() == config.path@ && m.creates_directory() == !state.exists
    }
}

impl StorageManager {
    /// The storage directory.
    pub closed spec fn path_view(&self) -> Seq<char> {
        self.path@
    }

    /// Whether the storage directory did not exist when it was checked, so
    /// that it has to be created before use.
    pub closed spec fn creates_directory(&self) -> bool {
        self.create_directory
    }

    /// Compares the mount that the mount provider reported with the expected
    /// mount point.
    pub fn check_mount(expected: &str, found: Result<Option<MountInfo>, std::io::Error>) -> (r:
        Result<(), StorageError>)
        ensures
            match found {
                Err(e) => r == Err::<(), StorageError>(StorageError::MountProvider(e)),
                Ok(m) => if mount_matches(m, expected@) {
                    r is Ok
                } else {
                    r matches Err(StorageError::MountMismatch { expected: x, found: f })
                        && x@ == expected@ && f@ == mismatch_found_text()
                },
            },
            r is Ok <==> (found is Ok && found->Ok_0 is Some && same_path(
                found->Ok_0->0.mount_point@,
                expected@,
            )),
    {
        match found {
            Err(e) => Err(StorageError::MountProvider(e)),
            Ok(current) => {
                let is_mounted_correctly = match current {
                    Some(mount) => paths_equal(mount.mount_point.as_str(), expected),
                    None => false,
                };
                if is_mounted_correctly {
                    Ok(())
                } else {
                    proof {
                        reveal_strlit("unmounted or mismatched");
                    }
                    Err(
                        StorageError::MountMismatch {
                            expected: expected.to_owned(),
                            found: "unmounted or mismatched".to_owned(),
                        },
                    )
                }
            },
        }
    }

    /// The path whose mount is compared with the expected mount point: the
    /// storage path when it exists, else its parent, else the root.
    pub fn mount_query_path(path: &str, state: PathState) -> (r: String)
        ensures
            r@ == mount_check_path(path@, state.exists),
    {
        if state.exists {
            path.to_owned()
        } else {
            proof {
                reveal_strlit("/");
            }
            match parent_path(path) {
                Some(p) => p,
                None => "/".to_owned(),
            }
        }
    }

    /// Opens the storage directory of `config`, whose filesystem state is
    /// `state`, once the mount provider has given `answer` about
    /// `mount_query_path`: the path is validated; when a mount point is
    /// expected, the answer must be that mount point, so that nothing is
    /// written to the wrong filesystem. On success the manager tells whether
    /// the directory still has to be created.
    pub fn open(
        config: &StorageConfig,
        state: PathState,
        answer: Result<Option<MountInfo>, std::io::Error>,
    ) -> (r: Result<Self, StorageError>)
        ensures
            opened_from(*config, state, answer, r),
            r is Ok && config.expected_mount_point is Some ==> answer is Ok && answer->Ok_0 is Some
                && same_path(
                answer->Ok_0->0.mount_point@,
                config.expected_mount_point->0@,
            ),
            storage_path_ok(config.path@, state) && config.expected_mount_point is Some && answer is Ok
                && answer->Ok_0 is Some && same_path(
                answer->Ok_0->0.mount_point@,
                config.expected_mount_point->0@,
            ) ==> r is Ok,
    {
        match validate_storage_path(config.path.as_str(), state) {
            Err(e) => {
                return Err(e);
            },
            Ok(()) => {},
        }
        if let Some(expected_mount) = &config.expected_mount_point {
            match Self::check_mount(expected_mount.as_str(), answer) {
                Err(e) => {
                    return Err(e);
                },
                Ok(()) => {},
            }
        }
        Ok(StorageManager { path: config.path.clone(), create_directory: !state.exists })
    }

    /// Opens the storage directory of `config`, whose filesystem state is
    /// `state`. When the path is valid and a mount point is expected, the
    /// mount provider is asked which mount holds `mount_query_path` (the
    /// storage path, or while it does not exist its parent), and `open`
    /// decides from its answer.
    pub fn new<M: MountProvider>(config: &StorageConfig, mount_provider: &M, state: PathState) -> (r:
        Result<Self, StorageError>)
        ensures
            exists|answer: Result<Option<MountInfo>, std::io::Error>|
                (storage_path_ok(config.path@, state) && config.expected_mount_point is Some
                    ==> mount_provider.answers(mount_check_path(config.path@, state.exists), answer))
                    && opened_from(*config, state, answer, r),
            !storage_path_ok(config.path@, state) ==> r is Err && is_validation_error(
                config.path@,
                state,
                r->Err_0,
            ),
            storage_path_ok(config.path@, state) && config.expected_mount_point is None ==> r is Ok,
            r matches Ok(m) ==> m.path_view() == config.path@ && m.creates_directory()
                == !state.exists && storage_path_ok(config.path@, state),
            r matches Err(err) ==> match err {
                StorageError::MountProvider(_) => storage_path_ok(config.path@, state)
                    && config.expected_mount_point is Some,
                StorageError::MountMismatch { expected: x, found: f } => storage_path_ok(
                    config.path@,
                    state,
                ) && config.expected_mount_point.deep_view() == Some(x@) && f@
                    == mismatch_found_text(),
                StorageError::FailedToCreateDirectory { .. } => false,
                _ => is_validation_error(config.path@, state, err),
            },
    {
        let answer = if storage_path_ok_exec(config.path.as_str(), state)
            && config.expected_mount_point.is_some() {
            let path_to_check = Self::mount_query_path(config.path.as_str(), state);
            mount_provider.mount_for_path(path_to_check.as_str())
        } else {
            Ok(None)
        };
        Self::open(config, state, answer)
    }

    /// The storage directory.
    pub fn path(&self) -> (r: &str)
        ensures
            r@ == self.path_view(),
    {
        self.path.as_str()
    }

    /// Whether the storage directory has to be created before use.
    pub fn needs_directory(&self) -> (r: bool)
        ensures
            r == self.creates_directory(),
    {
        self.create_directory
    }

    /// The status of a storage directory in state `state` when the mount
    /// provider answered `answer` about it (an answer that is only read when
    /// a mount point is expected).
    pub fn status_for(
        config: &StorageConfig,
        answer: Result<Option<MountInfo>, std::io::Error>,
        state: PathState,
    ) -> (r: StorageStatus)
        ensures
            r == status_spec(config.expected_mount_point.deep_view(), answer, state),
            config.expected_mount_point is Some ==> (r != StorageStatus::NotMounted <==> (answer is Ok
                && answer->Ok_0 is Some && same_path(
                answer->Ok_0->0.mount_point@,
                config.expected_mount_point->0@,
            ))),
    {
        if let Some(expected_mount) = &config.expected_mount_point {
            let mounted = match &answer {
                Ok(Some(m)) => paths_equal(m.mount_point.as_str(), expected_mount.as_str()),
                Ok(None) => false,
                Err(_) => false,
            };
            if !mounted {
                return StorageStatus::NotMounted;
            }
        }
        if !state.exists || !state.is_dir {
            return StorageStatus::Missing;
        }
        StorageStatus::Available
    }

    /// The status of the storage directory, whose filesystem state is
    /// `state`. When a mount point is expected, the mount provider is asked
    /// which mount holds the storage directory, and `status_for` decides from
    /// its answer.
    pub fn status<M: MountProvider>(
        &self,
        config: &StorageConfig,
        mount_provider: &M,
        state: PathState,
    ) -> (r: StorageStatus)
        ensures
            exists|answer: Result<Option<MountInfo>, std::io::Error>|
                (config.expected_mount_point is Some ==> mount_provider.answers(
                    self.path_view(),
                    answer,
                )) && r == status_spec(config.expected_mount_point.deep_view(), answer, state),
    {
        let answer = if config.expected_mount_point.is_some() {
            mount_provider.mount_for_path(self.path.as_str())
        } else {
            Ok(None)
        };
        Self::status_for(config, answer, state)
    }
}

/// A mount answer counts as the expected mount exactly when it names a
/// mount whose mount point is the same path as the expected one; no mount,
/// another mount, or a provider failure never does.
pub proof fn lemma_mount_match_is_same_path(
    answer: Result<Option<MountInfo>, std::io::Error>,
    expected: Seq<char>,
)
    ensures
        answer_matches(answer, expected) == (answer is Ok && answer->Ok_0 is Some && same_path(
            answer->Ok_0->0.mount_point@,
            expected,
        )),
        mount_matches(None, expected) == false,
        answer is Ok ==> mount_matches(answer->Ok_0, expected) == answer_matches(answer, expected),
{
}

/// Storage is reported available only when a directory exists at its path
/// and, when a mount point is expected, the mount provider answered that
/// mount; a provider failure never counts as the expected mount.
pub proof fn lemma_available_means_usable(
    expected: Option<Seq<char>>,
    answer: Result<Option<MountInfo>, std::io::Error>,
    state: PathState,
)
    ensures
        status_spec(expected, answer, state) == StorageStatus::Available ==> state.exists
            && state.is_dir && (expected is Some ==> answer is Ok && answer->Ok_0 is Some
            && same_path(answer->Ok_0->0.mount_point@, expected->0)),
{
}

} // verus!
