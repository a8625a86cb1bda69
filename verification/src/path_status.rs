//! Whether a path exists, what it is, and whether it can be written.
use vstd::prelude::*;

use crate::text::owned;

verus! {

/// The kind of entry at a path together with whether it is writable.
#[derive(Debug, Clone, Copy, PartialEq, Eq, Structural, PartialOrd, Ord, Hash)]
pub enum PathStatus {
    Nonexistent,
    ReadOnlyDirectory,
    ReadOnlyFile,
    ReadOnlySetuid,
    ReadOnlySymlink,
    WritableDirectory,
    WritableFile,
    WritableSetuid,
    WritableSymlink,
}

/// The description of each status.
pub open spec fn path_status_name(s: PathStatus) -> Seq<char> {
    match s {
        PathStatus::ReadOnlyDirectory => "read-only directory"@,
        PathStatus::ReadOnlyFile => "read-only file"@,
        PathStatus::ReadOnlySetuid => "read-only setuid"@,
        PathStatus::ReadOnlySymlink => "read-only symlink"@,
        PathStatus::WritableFile => "writable file"@,
        PathStatus::Nonexistent => "none"@,
        PathStatus::WritableDirectory => "writable directory"@,
        PathStatus::WritableSetuid => "writable setuid"@,
        PathStatus::WritableSymlink => "writable symlink"@,
    }
}

impl PathStatus {
    /// Returns the description of this status.
    pub fn to_str(self) -> (r: &'static str)
        ensures
            r@ == path_status_name(self),
    {
        match self {
            PathStatus::ReadOnlyDirectory => "read-only directory",
            PathStatus::ReadOnlyFile => "read-only file",
            PathStatus::ReadOnlySetuid => "read-only setuid",
            PathStatus::ReadOnlySymlink => "read-only symlink",
            PathStatus::WritableFile => "writable file",
            PathStatus::Nonexistent => "none",
            PathStatus::WritableDirectory => "writable directory",
            PathStatus::WritableSetuid => "writable setuid",
            PathStatus::WritableSymlink => "writable symlink",
        }
    }

    /// Returns the description of this status as a `String`.
    pub fn to_string(&self) -> (r: String)
        ensures
            r@ == path_status_name(*self),
    {
        owned(self.to_str())
    }
}

} // verus!
