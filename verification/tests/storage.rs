use std::cell::RefCell;

use netwatch_core::config::{PathState, StorageConfig};
use netwatch_core::error::StorageError;
use netwatch_core::storage::{StorageManager, StorageStatus};
use netwatch_core::storage_mount::{mount_from_findmnt, MountInfo, MountProvider};

/// Reports a fixed mount and remembers the paths it was asked about.
struct FixedMount {
    mount: Option<String>,
    fail: bool,
    asked: RefCell<Vec<String>>,
}

impl FixedMount {
    fn new(mount: Option<&str>) -> Self {
        FixedMount {
            mount: mount.map(|m| m.to_string()),
            fail: false,
            asked: RefCell::new(Vec::new()),
        }
    }

    fn failing() -> Self {
        FixedMount {
            mount: None,
            fail: true,
            asked: RefCell::new(Vec::new()),
        }
    }
}

impl MountProvider for FixedMount {
    fn mount_for_path(&self, path: &str) -> std::io::Result<Option<MountInfo>> {
        self.asked.borrow_mut().push(path.to_string());
        if self.fail {
            return Err(std::io::Error::new(std::io::ErrorKind::Other, "findmnt failed"));
        }
        Ok(self.mount.as_ref().map(|m| MountInfo {
            mount_point: m.clone(),
        }))
    }
}

fn config(path: &str, expected: Option<&str>) -> StorageConfig {
    StorageConfig {
        path: path.to_string(),
        expected_mount_point: expected.map(|e| e.to_string()),
    }
}

const MISSING: PathState = PathState {
    exists: false,
    is_dir: false,
};
const DIRECTORY: PathState = PathState {
    exists: true,
    is_dir: true,
};
const FILE: PathState = PathState {
    exists: true,
    is_dir: false,
};

#[test]
fn opens_without_expected_mount() {
    let provider = FixedMount::new(None);
    let manager = StorageManager::new(&config("/data/netwatch", None), &provider, MISSING).unwrap();
    assert_eq!(manager.path(), "/data/netwatch");
    assert!(manager.needs_directory());
    assert!(provider.asked.borrow().is_empty());
}

#[test]
fn existing_directory_needs_no_creation() {
    let provider = FixedMount::new(Some("/mnt/stor"));
    let manager = StorageManager::new(
        &config("/mnt/stor/netwatch", Some("/mnt/stor")),
        &provider,
        DIRECTORY,
    )
    .unwrap();
    assert!(!manager.needs_directory());
    assert_eq!(*provider.asked.borrow(), vec!["/mnt/stor/netwatch".to_string()]);
}

#[test]
fn missing_directory_is_checked_through_its_parent() {
    let provider = FixedMount::new(Some("/mnt/stor"));
    let manager = StorageManager::new(
        &config("/mnt/stor/netwatch", Some("/mnt/stor")),
        &provider,
        MISSING,
    )
    .unwrap();
    assert!(manager.needs_directory());
    assert_eq!(*provider.asked.borrow(), vec!["/mnt/stor".to_string()]);
}

#[test]
fn mount_mismatch_is_refused() {
    let provider = FixedMount::new(Some("/"));
    let result = StorageManager::new(
        &config("/mnt/stor/netwatch", Some("/mnt/stor")),
        &provider,
        MISSING,
    );
    match result {
        Err(StorageError::MountMismatch { expected, found }) => {
            assert_eq!(expected, "/mnt/stor");
            assert_eq!(found, "unmounted or mismatched");
        }
        _ => panic!("expected a mount mismatch"),
    }
}

#[test]
fn unmounted_storage_is_refused() {
    let provider = FixedMount::new(None);
    let result = StorageManager::new(&config("/mnt/stor/x", Some("/mnt/stor")), &provider, DIRECTORY);
    assert!(matches!(result, Err(StorageError::MountMismatch { .. })));
}

#[test]
fn mount_provider_failure_is_reported() {
    let provider = FixedMount::failing();
    let result = StorageManager::new(&config("/mnt/stor/x", Some("/mnt/stor")), &provider, DIRECTORY);
    assert!(matches!(result, Err(StorageError::MountProvider(_))));
}

#[test]
fn invalid_paths_are_refused_before_any_mount_check() {
    let provider = FixedMount::new(Some("/mnt/stor"));
    let empty = StorageManager::new(&config("", Some("/mnt/stor")), &provider, MISSING);
    assert!(matches!(empty, Err(StorageError::EmptyPath)));
    let file = StorageManager::new(&config("/mnt/stor/f", Some("/mnt/stor")), &provider, FILE);
    assert!(matches!(file, Err(StorageError::PathIsNotDirectory(p)) if p == "/mnt/stor/f"));
    assert!(provider.asked.borrow().is_empty());
}

#[test]
fn status_reports_each_case() {
    let provider = FixedMount::new(Some("/mnt/stor"));
    let cfg = config("/mnt/stor/netwatch", Some("/mnt/stor"));
    let manager = StorageManager::new(&cfg, &provider, DIRECTORY).unwrap();
    assert_eq!(manager.status(&cfg, &provider, DIRECTORY), StorageStatus::Available);
    assert_eq!(manager.status(&cfg, &provider, MISSING), StorageStatus::Missing);
    assert_eq!(manager.status(&cfg, &provider, FILE), StorageStatus::Missing);

    let elsewhere = FixedMount::new(Some("/"));
    assert_eq!(manager.status(&cfg, &elsewhere, DIRECTORY), StorageStatus::NotMounted);
    let failing = FixedMount::failing();
    assert_eq!(manager.status(&cfg, &failing, DIRECTORY), StorageStatus::NotMounted);

    let unpinned = config("/mnt/stor/netwatch", None);
    assert_eq!(manager.status(&unpinned, &failing, DIRECTORY), StorageStatus::Available);
}

#[test]
fn status_for_known_mount() {
    let cfg = config("/mnt/stor/netwatch", Some("/mnt/stor"));
    let here = Some(MountInfo {
        mount_point: "/mnt/stor".to_string(),
    });
    assert_eq!(StorageManager::status_for(&cfg, Ok(here), DIRECTORY), StorageStatus::Available);
    assert_eq!(StorageManager::status_for(&cfg, Ok(None), DIRECTORY), StorageStatus::NotMounted);
    let failure = Err(std::io::Error::new(std::io::ErrorKind::Other, "findmnt failed"));
    assert_eq!(StorageManager::status_for(&cfg, failure, DIRECTORY), StorageStatus::NotMounted);
    let unpinned = config("/mnt/stor/netwatch", None);
    let failure = Err(std::io::Error::new(std::io::ErrorKind::Other, "findmnt failed"));
    assert_eq!(StorageManager::status_for(&unpinned, failure, MISSING), StorageStatus::Missing);
}

#[test]
fn check_mount_outcomes() {
    let ok = StorageManager::check_mount(
        "/mnt/stor",
        Ok(Some(MountInfo {
            mount_point: "/mnt/stor".to_string(),
        })),
    );
    assert!(ok.is_ok());
    let none = StorageManager::check_mount("/mnt/stor", Ok(None));
    assert!(matches!(none, Err(StorageError::MountMismatch { .. })));
}

#[test]
fn findmnt_output_is_read() {
    assert_eq!(
        mount_from_findmnt(true, b"/mnt/stor\n"),
        Some(MountInfo {
            mount_point: "/mnt/stor".to_string()
        })
    );
    assert_eq!(mount_from_findmnt(true, b"  \n"), None);
    assert_eq!(mount_from_findmnt(false, b"/mnt/stor\n"), None);
}

#[test]
fn mount_points_compare_as_paths() {
    let ok = StorageManager::check_mount(
        "/mnt/stor/",
        Ok(Some(MountInfo {
            mount_point: "/mnt/stor".to_string(),
        })),
    );
    assert!(ok.is_ok());
}

#[test]
fn mount_query_path_uses_parent_while_missing() {
    assert_eq!(StorageManager::mount_query_path("/mnt/stor/data", DIRECTORY), "/mnt/stor/data");
    assert_eq!(StorageManager::mount_query_path("/mnt/stor/data", MISSING), "/mnt/stor");
    assert_eq!(StorageManager::mount_query_path("/", MISSING), "/");
    assert_eq!(StorageManager::mount_query_path("relative", MISSING), "");
}

#[test]
fn open_decides_from_the_answer() {
    let cfg = config("/mnt/stor/netwatch", Some("/mnt/stor"));
    let matching = Ok(Some(MountInfo {
        mount_point: "/mnt/stor".to_string(),
    }));
    let manager = StorageManager::open(&cfg, MISSING, matching).unwrap();
    assert_eq!(manager.path(), "/mnt/stor/netwatch");
    assert!(manager.needs_directory());

    let root = Ok(Some(MountInfo {
        mount_point: "/".to_string(),
    }));
    assert!(matches!(
        StorageManager::open(&cfg, MISSING, root),
        Err(StorageError::MountMismatch { .. })
    ));
    let failure = Err(std::io::Error::new(std::io::ErrorKind::Other, "findmnt failed"));
    assert!(matches!(
        StorageManager::open(&cfg, MISSING, failure),
        Err(StorageError::MountProvider(_))
    ));

    let unpinned = config("/data/netwatch", None);
    let failure = Err(std::io::Error::new(std::io::ErrorKind::Other, "findmnt failed"));
    assert!(StorageManager::open(&unpinned, DIRECTORY, failure).is_ok());
    assert!(matches!(
        StorageManager::open(&config("", Some("/mnt/stor")), MISSING, Ok(None)),
        Err(StorageError::EmptyPath)
    ));
}
