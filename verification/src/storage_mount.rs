//! Which mount holds a path.
use vstd::prelude::*;

use crate::text::{decode_utf8_lossy, trim, trim_spec, utf8_lossy};

verus! {

/// A mounted filesystem.
#[derive(Debug, Clone, PartialEq, Eq)]
pub struct MountInfo {
    /// Where the filesystem is mounted.
    pub mount_point: String,
}

/// Tells which mount holds a path.
pub trait MountProvider {
    /// Whether `answer` is what this provider answered when asked which
    /// mount holds `path`. It names the answers a call gets and assumes
    /// nothing about them.
    closed spec fn answers(&self, path: Seq<char>, answer: Result<Option<MountInfo>, std::io::Error>) -> bool {
        true
    }

    /// The mount that holds `path`, none when no mount can be named.
    fn mount_for_path(&self, path: &str) -> (r: Result<Option<MountInfo>, std::io::Error>)
        ensures
            self.answers(path@, r),
    ;
}

/// The mount point named by a `findmnt -no TARGET --target <path>` run that
/// succeeded or not (`success`) and printed `stdout`: the trimmed output, none
/// when the run failed or printed nothing but whitespace.
pub open spec fn findmnt_mount_point(success: bool, stdout: Seq<u8>) -> Option<Seq<char>> {
    let text = trim_spec(utf8_lossy(stdout));
    if !success || text.len() == 0 {
        None
    } else {
        Some(text)
    }
}

/// The mount point of `mount`, if any.
pub open spec fn mount_point_of(mount: Option<MountInfo>) -> Option<Seq<char>> {
    match mount {
        Some(m) => Some(m.mount_point@),
        None => None,
    }
}

/// The mount that a `findmnt -no TARGET --target <path>` run reports.
pub fn mount_from_findmnt(success: bool, stdout: &[u8]) -> (r: Option<MountInfo>)
    ensures
        mount_point_of(r) == findmnt_mount_point(success, stdout@),
{
    if !success {
        return None;
    }
    let text = decode_utf8_lossy(stdout);
    let mount_point = trim(text.as_str());
    if mount_point.as_str().is_empty() {
        return None;
    }
    Some(MountInfo { mount_point })
}

} // verus!
