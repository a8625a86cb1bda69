//! What a path is on disk, answered from its metadata: each method takes the
//! `Node` that the caller read for this path.
use vstd::prelude::*;

use crate::node::{Node, kind_of, status_of};
use crate::path::Path;
use crate::path_status::PathStatus;
use crate::path_type::PathType;
use crate::errors::{Error, FileSystemError, exception_display, error_text};
use crate::path::{new_path, joined};
use crate::path_status::path_status_name;
use crate::path_type::path_type_name;
use crate::size::Size;
use crate::text::{chars_of, has_prefix, owned, push_char, vec_occurs_at};

verus! {

/// Whether the permission bit `mask` is set in `mode`.
pub open spec fn mode_bit_set(mode: u32, mask: u32) -> bool {
    mode & mask != 0
}

/// The status of a path from its node: that of the node, except that a path
/// with nothing there is a writable file when its parent is a writable
/// directory.
pub open spec fn status_with_parent(node: Node, parent_status: PathStatus) -> PathStatus {
    let s = status_of(kind_of(node.is_file, node.is_dir, node.is_symlink), node.mode);
    if s == PathStatus::Nonexistent {
        if parent_status == PathStatus::WritableDirectory {
            PathStatus::WritableFile
        } else {
            PathStatus::Nonexistent
        }
    } else {
        s
    }
}

impl Path {
    /// The kind of entry at this path, from its metadata `node`.
    pub fn query_type(&self, node: &Node) -> (r: PathType)
        ensures
            r == kind_of(node.is_file, node.is_dir, node.is_symlink),
    {
        node.path_type()
    }

    /// The kind of entry at this path (`query_type`).
    pub fn kind(&self, node: &Node) -> (r: PathType)
        ensures
            r == kind_of(node.is_file, node.is_dir, node.is_symlink),
    {
        self.query_type(node)
    }

    /// Whether this path is a file.
    pub fn is_file(&self, node: &Node) -> (r: bool)
        ensures
            r == node.is_file,
    {
        node.is_file
    }

    /// Whether this path is a directory.
    pub fn is_dir(&self, node: &Node) -> (r: bool)
        ensures
            r == node.is_dir,
    {
        node.is_dir
    }

    /// Whether this path is a directory (`is_dir`).
    pub fn is_directory(&self, node: &Node) -> (r: bool)
        ensures
            r == node.is_dir,
    {
        node.is_dir
    }

    /// Whether this path is a symlink.
    pub fn is_symlink(&self, node: &Node) -> (r: bool)
        ensures
            r == node.is_symlink,
    {
        node.is_symlink
    }

    /// Whether something is at this path.
    pub fn path_exists(&self, node: &Node) -> (r: bool)
        ensures
            r == (status_of(kind_of(node.is_file, node.is_dir, node.is_symlink), node.mode)
                != PathStatus::Nonexistent),
    {
        node.path_exists()
    }

    /// The size in bytes of the entry at this path.
    pub fn file_size(&self, node: &Node) -> (r: u64)
        ensures
            r == node.size,
    {
        node.size
    }

    /// The size of the entry at this path.
    pub fn size(&self, node: &Node) -> (r: Size)
        ensures
            r@ == node.size,
    {
        Size::from_bytes(node.size)
    }

    /// The permission bits of the entry at this path (`st_mode & 0o777`).
    pub fn mode(&self, node: &Node) -> (r: u32)
        ensures
            r == node.mode & 0o777u32,
    {
        node.mode & 0o777u32
    }

    /// Whether the owner's execute bit (`0o100`) is set.
    pub fn owner_executable(&self, node: &Node) -> (r: bool)
        ensures
            r == mode_bit_set(node.mode, 0o100u32),
    {
        node.mode & 0o100u32 != 0
    }

    /// Whether the owner's write bit (`0o200`) is set.
    pub fn owner_writable(&self, node: &Node) -> (r: bool)
        ensures
            r == mode_bit_set(node.mode, 0o200u32),
    {
        node.mode & 0o200u32 != 0
    }

    /// Whether the owner's read bit (`0o400`) is set.
    pub fn owner_readable(&self, node: &Node) -> (r: bool)
        ensures
            r == mode_bit_set(node.mode, 0o400u32),
    {
        node.mode & 0o400u32 != 0
    }

    /// Whether the group's execute bit (`0o10`) is set.
    pub fn group_executable(&self, node: &Node) -> (r: bool)
        ensures
            r == mode_bit_set(node.mode, 0o10u32),
    {
        node.mode & 0o10u32 != 0
    }

    /// Whether the group's write bit (`0o20`) is set.
    pub fn group_writable(&self, node: &Node) -> (r: bool)
        ensures
            r == mode_bit_set(node.mode, 0o20u32),
    {
        node.mode & 0o20u32 != 0
    }

    /// Whether the group's read bit (`0o40`) is set.
    pub fn group_readable(&self, node: &Node) -> (r: bool)
        ensures
            r == mode_bit_set(node.mode, 0o40u32),
    {
        node.mode & 0o40u32 != 0
    }

    /// Whether the others' execute bit (`0o1`) is set.
    pub fn others_executable(&self, node: &Node) -> (r: bool)
        ensures
            r == mode_bit_set(node.mode, 0o1u32),
    {
        node.mode & 0o1u32 != 0
    }

    /// Whether the others' write bit (`0o2`) is set.
    pub fn others_writable(&self, node: &Node) -> (r: bool)
        ensures
            r == mode_bit_set(node.mode, 0o2u32),
    {
        node.mode & 0o2u32 != 0
    }

    /// Whether the others' read bit (`0o4`) is set.
    pub fn others_readable(&self, node: &Node) -> (r: bool)
        ensures
            r == mode_bit_set(node.mode, 0o4u32),
    {
        node.mode & 0o4u32 != 0
    }

    /// `owner_executable` or `group_executable`.
    pub fn executable(&self, node: &Node) -> (r: bool)
        ensures
            r == (mode_bit_set(node.mode, 0o100u32) || mode_bit_set(node.mode, 0o10u32)),
    {
        self.owner_executable(node) || self.group_executable(node)
    }

    /// `owner_writable` or `group_writable`.
    pub fn writable(&self, node: &Node) -> (r: bool)
        ensures
            r == (mode_bit_set(node.mode, 0o200u32) || mode_bit_set(node.mode, 0o20u32)),
    {
        self.owner_writable(node) || self.group_writable(node)
    }

    /// `owner_readable` or `group_readable`.
    pub fn readable(&self, node: &Node) -> (r: bool)
        ensures
            r == (mode_bit_set(node.mode, 0o400u32) || mode_bit_set(node.mode, 0o40u32)),
    {
        self.owner_readable(node) || self.group_readable(node)
    }

    /// The status of this path from its metadata `node` and the status of its
    /// parent: a path with nothing there counts as a writable file when its
    /// parent is a writable directory.
    pub fn status(&self, node: &Node, parent_status: PathStatus) -> (r: PathStatus)
        ensures
            r == status_with_parent(*node, parent_status),
    {
        match node.path_status() {
            PathStatus::Nonexistent => if parent_status == PathStatus::WritableDirectory {
                PathStatus::WritableFile
            } else {
                PathStatus::Nonexistent
            },
            s => s,
        }
    }

    /// Whether a file can be written at this path: it is a writable file or
    /// has the status of nothing there.
    pub fn is_writable_file(&self, node: &Node, parent_status: PathStatus) -> (r: bool)
        ensures
            r == (status_with_parent(*node, parent_status) == PathStatus::WritableFile
                || status_with_parent(*node, parent_status) == PathStatus::Nonexistent),
    {
        match self.status(node, parent_status) {
            PathStatus::WritableFile | PathStatus::Nonexistent => true,
            _ => false,
        }
    }

    /// Whether a directory can be written at this path: it is a writable
    /// directory or has the status of nothing there.
    pub fn is_writable_directory(&self, node: &Node, parent_status: PathStatus) -> (r: bool)
        ensures
            r == (status_with_parent(*node, parent_status) == PathStatus::WritableDirectory
                || status_with_parent(*node, parent_status) == PathStatus::Nonexistent),
    {
        match self.status(node, parent_status) {
            PathStatus::WritableDirectory | PathStatus::Nonexistent => true,
            _ => false,
        }
    }

    /// The test for a symlink: a writable setuid entry or the status of
    /// nothing there.
    pub fn is_writable_symlink(&self, node: &Node, parent_status: PathStatus) -> (r: bool)
        ensures
            r == (status_with_parent(*node, parent_status) == PathStatus::WritableSetuid
                || status_with_parent(*node, parent_status) == PathStatus::Nonexistent),
    {
        match self.status(node, parent_status) {
            PathStatus::WritableSetuid | PathStatus::Nonexistent => true,
            _ => false,
        }
    }
}

/// What a request for a writable path comes to: the path is ready, its
/// directories are to be created first, or it is refused.
#[derive(Debug)]
pub enum Admission {
    Ready(Path),
    CreateParents(Path),
    Refused(Error),
}

/// The message of a filesystem failure of kind `e` on `path` with detail `d`,
/// as an `Error` shows it (an exception shown in full).
pub open spec fn failure_message(e: FileSystemError, path: Seq<char>, d: Seq<char>) -> Seq<char> {
    crate::errors::debug_quoted(path) + ": "@ + crate::errors::fs_error_text(e) + " "@
        + crate::errors::exception_text(e, path, Some(d))
}

/// What `Path::existing`, `writable_*` and the like give for a refusal: a
/// `FileSystemError` with the failure shown in full.
pub open spec fn is_failure(r: Error, e: FileSystemError, path: Seq<char>, d: Option<Seq<char>>) -> bool {
    r matches Error::FileSystemError(m) && m@ == crate::errors::debug_quoted(path) + ": "@
        + crate::errors::fs_error_text(e) + " "@ + crate::errors::exception_text(e, path, d)
}

/// Whether a node is a writable file or nothing (`Node::is_writable_file`).
pub open spec fn node_writable_file(node: Node) -> bool {
    let s = status_of(kind_of(node.is_file, node.is_dir, node.is_symlink), node.mode);
    s == PathStatus::WritableFile || s == PathStatus::Nonexistent
}

/// The detail given when a path exists as something else.
pub open spec fn exists_as(s: PathStatus) -> Seq<char> {
    "path (exists as "@ + path_status_name(s) + ")"@
}

impl Path {
    /// The path `path` (made as `Path::new` makes it), when something is
    /// there according to `node`.
    pub fn existing(path: &str, tilde: &str, node: &Node) -> (r: Result<Path, Error>)
        ensures
            kind_of(node.is_file, node.is_dir, node.is_symlink) != PathType::Nonexistent ==> (r matches Ok(p) && p@ == new_path(path@, tilde@)),
            kind_of(node.is_file, node.is_dir, node.is_symlink) == PathType::Nonexistent ==> (r matches Err(e)
                && is_failure(e, FileSystemError::PathDoesNotExist, new_path(path@, tilde@), None)),
    {
        let p = Path::new(path, tilde);
        match p.kind(node) {
            PathType::Nonexistent => Err(Error::from_failure_on(FileSystemError::PathDoesNotExist, p)),
            _ => Ok(p),
        }
    }

    /// The path `path` when its canonical form is a file.  `canonical` is
    /// what resolving the path gave: the metadata of the canonical path, or
    /// the error of resolving it.
    pub fn file(path: &str, tilde: &str, canonical: Result<&Node, Error>) -> (r: Result<Path, Error>)
        ensures
            match canonical {
                Err(e) => r == Err::<Path, Error>(e),
                Ok(n) => if n.is_file {
                    r matches Ok(p) && p@ == new_path(path@, tilde@)
                } else {
                    r matches Err(Error::UnexpectedPathType(m)) && m@ == new_path(path@, tilde@) + " is not a "@ + path_type_name(PathType::File)
                },
            },
    {
        let p = Path::new(path, tilde);
        match canonical {
            Err(e) => Err(e),
            Ok(n) => if n.is_file {
                Ok(p)
            } else {
                let mut m = p.to_string();
                m.append(" is not a ");
                m.append(PathType::File.to_str());
                Err(Error::UnexpectedPathType(m))
            },
        }
    }

    /// The path `path` when its canonical form is a directory (see `file`).
    pub fn directory(path: &str, tilde: &str, canonical: Result<&Node, Error>) -> (r: Result<Path, Error>)
        ensures
            match canonical {
                Err(e) => r == Err::<Path, Error>(e),
                Ok(n) => if n.is_dir {
                    r matches Ok(p) && p@ == new_path(path@, tilde@)
                } else {
                    r matches Err(Error::UnexpectedPathType(m)) && m@ == new_path(path@, tilde@) + " is not a "@ + path_type_name(PathType::Directory)
                },
            },
    {
        let p = Path::new(path, tilde);
        match canonical {
            Err(e) => Err(e),
            Ok(n) => if n.is_dir {
                Ok(p)
            } else {
                let mut m = p.to_string();
                m.append(" is not a ");
                m.append(PathType::Directory.to_str());
                Err(Error::UnexpectedPathType(m))
            },
        }
    }

    /// The path when its metadata `node` makes it readable (`readable`);
    /// otherwise a `NonReadablePath` failure.
    pub fn readable_file(path: Path, node: &Node) -> (r: Result<Path, Error>)
        ensures
            r is Ok <==> (mode_bit_set(node.mode, 0o400u32) || mode_bit_set(node.mode, 0o40u32)),
            r matches Ok(p) ==> p@ == path@,
            r matches Err(e) ==> is_failure(e, FileSystemError::NonReadablePath, path@, None),
    {
        if !path.readable(node) {
            Err(Error::from_failure_on(FileSystemError::NonReadablePath, path))
        } else {
            Ok(path)
        }
    }

    /// Whether a file can be created at this path given its `node`: a
    /// writable file or nothing; otherwise a `CreateFile` failure naming
    /// what is there.
    pub fn creatable(&self, node: &Node) -> (r: Result<(), Error>)
        ensures
            r is Ok <==> node_writable_file(*node),
            r matches Err(e) ==> is_failure(e, FileSystemError::CreateFile, self@, Some(
                "path exists ("@ + path_type_name(kind_of(node.is_file, node.is_dir, node.is_symlink)) + ")"@,
            )),
    {
        if node.is_writable_file() {
            Ok(())
        } else {
            let mut d = owned("path exists (");
            d.append(node.path_type().to_str());
            d.append(")");
            Err(Error::from_failure(FileSystemError::CreateFile, self.clone(), d.as_str()))
        }
    }

    /// Whether bytes can be appended at this path given its `node`: a
    /// writable file or nothing; otherwise an `AppendFile` failure naming
    /// what is there.
    pub fn appendable(&self, node: &Node) -> (r: Result<(), Error>)
        ensures
            r is Ok <==> node_writable_file(*node),
            r matches Err(e) ==> is_failure(e, FileSystemError::AppendFile, self@, Some(
                "not writable "@ + path_type_name(kind_of(node.is_file, node.is_dir, node.is_symlink)),
            )),
    {
        if node.is_writable_file() {
            Ok(())
        } else {
            let mut d = owned("not writable ");
            d.append(node.path_type().to_str());
            Err(Error::from_failure(FileSystemError::AppendFile, self.clone(), d.as_str()))
        }
    }

    /// The path a symlink to this path is made at: `to`, when its status is
    /// a writable symlink, a writable file or nothing; otherwise a
    /// `CreateSymlink` failure on this path naming what `to` is.
    pub fn symlink_target(&self, to: Path, to_status: PathStatus) -> (r: Result<Path, Error>)
        ensures
            r is Ok <==> (to_status == PathStatus::WritableSymlink || to_status == PathStatus::WritableFile
                || to_status == PathStatus::Nonexistent),
            r matches Ok(p) ==> p@ == to@,
            r matches Err(e) ==> is_failure(e, FileSystemError::CreateSymlink, self@, Some(
                "to "@ + to@ + " path exists as a "@ + path_status_name(to_status),
            )),
    {
        match to_status {
            PathStatus::WritableSymlink | PathStatus::WritableFile | PathStatus::Nonexistent => Ok(to),
            _ => {
                let mut d = owned("to ");
                d.append(to.as_str());
                d.append(" path exists as a ");
                d.append(to_status.to_str());
                Err(Error::from_failure(FileSystemError::CreateSymlink, self.clone(), d.as_str()))
            },
        }
    }

    /// The error for a path whose directories could not be created: a
    /// non-writable path with the failure `e` as detail.
    pub fn creation_refused(path: Path, e: &Error) -> (r: Error)
        ensures
            is_failure(r, FileSystemError::NonWritablePath, path@, Some(error_text(*e))),
    {
        let d = e.to_string();
        Error::from_failure(FileSystemError::NonWritablePath, path, d.as_str())
    }

    /// Admits `path` for writing a file given its `status`: ready when it is
    /// a writable file, its directories to be created when nothing is there,
    /// and refused otherwise.
    pub fn writable_file(path: Path, status: PathStatus) -> (r: Admission)
        ensures
            status == PathStatus::WritableFile ==> (r matches Admission::Ready(p) && p@ == path@),
            status == PathStatus::Nonexistent ==> (r matches Admission::CreateParents(p) && p@ == path@),
            status != PathStatus::WritableFile && status != PathStatus::Nonexistent ==> (r matches Admission::Refused(e)
                && is_failure(e, FileSystemError::NonWritablePath, path@, Some(exists_as(status)))),
    {
        Path::admission(path, status, PathStatus::WritableFile)
    }

    /// Admits `path` for a writable directory given its `status` (see
    /// `writable_file`).
    pub fn writable_directory(path: Path, status: PathStatus) -> (r: Admission)
        ensures
            status == PathStatus::WritableDirectory ==> (r matches Admission::Ready(p) && p@ == path@),
            status == PathStatus::Nonexistent ==> (r matches Admission::CreateParents(p) && p@ == path@),
            status != PathStatus::WritableDirectory && status != PathStatus::Nonexistent ==> (r matches Admission::Refused(e)
                && is_failure(e, FileSystemError::NonWritablePath, path@, Some(exists_as(status)))),
    {
        Path::admission(path, status, PathStatus::WritableDirectory)
    }

    /// Admits `path` for a writable symlink given its `status` (see
    /// `writable_file`).
    pub fn writable_symlink(path: Path, status: PathStatus) -> (r: Admission)
        ensures
            status == PathStatus::WritableSymlink ==> (r matches Admission::Ready(p) && p@ == path@),
            status == PathStatus::Nonexistent ==> (r matches Admission::CreateParents(p) && p@ == path@),
            status != PathStatus::WritableSymlink && status != PathStatus::Nonexistent ==> (r matches Admission::Refused(e)
                && is_failure(e, FileSystemError::NonWritablePath, path@, Some(exists_as(status)))),
    {
        Path::admission(path, status, PathStatus::WritableSymlink)
    }

    /// Admits `path` given its `status` and the status `wanted`.
    fn admission(path: Path, status: PathStatus, wanted: PathStatus) -> (r: Admission)
        requires
            wanted != PathStatus::Nonexistent,
        ensures
            status == wanted ==> (r matches Admission::Ready(p) && p@ == path@),
            status == PathStatus::Nonexistent ==> (r matches Admission::CreateParents(p) && p@ == path@),
            status != wanted && status != PathStatus::Nonexistent ==> (r matches Admission::Refused(e)
                && is_failure(e, FileSystemError::NonWritablePath, path@, Some(exists_as(status)))),
    {
        if status == wanted {
            Admission::Ready(path)
        } else if status == PathStatus::Nonexistent {
            Admission::CreateParents(path)
        } else {
            let mut d = owned("path (exists as ");
            let s = status.to_string();
            d.append(s.as_str());
            d.append(")");
            Admission::Refused(Error::from_failure(FileSystemError::NonWritablePath, path, d.as_str()))
        }
    }

    /// This path with a leading `~` replaced by the home directory `home`,
    /// or by `tilde` where the home directory could not be found.
    pub fn try_expand(&self, home: Option<&str>, tilde: &str) -> (r: Path)
        ensures
            Some(r@) == if has_prefix(self@, seq!['~']) {
                crate::path_utils::regex_replace_all(seq!['^', '~'], self@, match home {
                    Some(h) => h@,
                    None => tilde@,
                })
            } else {
                Some(self@)
            },
    {
        match home {
            Some(h) => self.expand(h),
            None => self.expand(tilde),
        }
    }
}

/// `s` with every occurrence of `p` removed, left to right without overlaps
/// (`str::replace(p, "")`).
pub open spec fn remove_all(s: Seq<char>, p: Seq<char>) -> Seq<char>
    decreases s.len(),
{
    if p.len() == 0 || s.len() == 0 {
        s
    } else if has_prefix(s, p) {
        remove_all(s.skip(p.len() as int), p)
    } else {
        seq![s[0]] + remove_all(s.drop_first(), p)
    }
}

/// Removes every occurrence of `p` from `s`, left to right.
pub fn remove_all_text(s: &str, p: &str) -> (r: String)
    ensures
        r@ == remove_all(s@, p@),
{
    let sv = chars_of(s);
    let pv = chars_of(p);
    if pv.len() == 0 {
        return owned(s);
    }
    let mut r = String::new();
    let mut i: usize = 0;
    assert(sv@.skip(0) =~= sv@);
    while i < sv.len()
        invariant
            sv@ == s@,
            pv@ == p@,
            pv@.len() > 0,
            i <= sv@.len(),
            r@ + remove_all(sv@.skip(i as int), pv@) == remove_all(s@, p@),
        decreases sv.len() - i,
    {
        let ghost rest = sv@.skip(i as int);
        if vec_occurs_at(&sv, &pv, i) {
            assert(rest.subrange(0, pv@.len() as int) =~= sv@.subrange(i as int, i + pv@.len()));
            assert(rest.skip(pv@.len() as int) =~= sv@.skip(i + pv@.len()));
            i = i + pv.len();
        } else {
            proof {
                if has_prefix(rest, pv@) {
                    assert(rest.subrange(0, pv@.len() as int) =~= sv@.subrange(i as int, i + pv@.len()));
                }
            }
            assert(rest.drop_first() =~= sv@.skip(i + 1));
            assert(rest[0] == sv@[i as int]);
            let ghost before = r@;
            push_char(&mut r, sv[i]);
            assert(r@ + remove_all(sv@.skip(i + 1), pv@) =~= before + (seq![sv@[i as int]] + remove_all(sv@.skip(i + 1), pv@)));
            i = i + 1;
        }
    }
    assert(sv@.skip(i as int).len() == 0);
    assert(r@ + remove_all(sv@.skip(i as int), pv@) =~= r@);
    r
}

/// The text `remove_absolute_path` leaves of `path` given the current
/// directory `cwd`: an absolute path as it is; otherwise, with `a` the path
/// joined onto `cwd`, `a` without what `a` has besides the path (followed by
/// a separator).
pub open spec fn without_absolute_part(path: Seq<char>, cwd: Seq<char>) -> Seq<char> {
    if has_prefix(path, seq!['/']) {
        path
    } else {
        let a = joined(cwd, path);
        remove_all(a, crate::path_utils::with_trailing_separator(remove_all(a, path)))
    }
}

/// `path` made relative again after being joined onto the current
/// directory `cwd`: the part that the current directory added is removed.
pub fn remove_absolute_path(path: &Path, cwd: &Path) -> (r: Path)
    ensures
        r@ == without_absolute_part(path@, cwd@),
{
    if path.is_absolute() {
        return path.clone();
    }
    let a = cwd.join(path.as_str());
    let part = remove_all_text(a.as_str(), path.as_str());
    let sep = crate::path_utils::add_trailing_separator(part.as_str());
    Path::from_string(remove_all_text(a.as_str(), sep.as_str()))
}

} // verus!

verus! {

/// `s` with every occurrence of `from` replaced by `to`, left to right
/// without overlaps (`str::replace`); an empty `from` puts `to` before each
/// character and at the end.
pub open spec fn replaced_all(s: Seq<char>, from: Seq<char>, to: Seq<char>) -> Seq<char>
    decreases s.len(),
{
    if from.len() == 0 {
        if s.len() == 0 { to } else { to + seq![s[0]] + replaced_all(s.drop_first(), from, to) }
    } else if s.len() == 0 {
        s
    } else if has_prefix(s, from) {
        to + replaced_all(s.skip(from.len() as int), from, to)
    } else {
        seq![s[0]] + replaced_all(s.drop_first(), from, to)
    }
}

/// Replaces every occurrence of `from` in `s` by `to`.
pub fn replace_all_text(s: &str, from: &str, to: &str) -> (r: String)
    ensures
        r@ == replaced_all(s@, from@, to@),
{
    let sv = chars_of(s);
    let fv = chars_of(from);
    let mut r = String::new();
    let mut i: usize = 0;
    assert(sv@.skip(0) =~= sv@);
    while i < sv.len()
        invariant
            sv@ == s@,
            fv@ == from@,
            i <= sv@.len(),
            r@ + replaced_all(sv@.skip(i as int), fv@, to@) == replaced_all(s@, from@, to@),
        decreases sv.len() - i,
    {
        let ghost rest = sv@.skip(i as int);
        let ghost before = r@;
        if fv.len() > 0 && vec_occurs_at(&sv, &fv, i) {
            assert(rest.subrange(0, fv@.len() as int) =~= sv@.subrange(i as int, i + fv@.len()));
            assert(rest.skip(fv@.len() as int) =~= sv@.skip(i + fv@.len()));
            r.append(to);
            assert(r@ + replaced_all(sv@.skip(i + fv@.len()), fv@, to@) =~= before + (to@ + replaced_all(sv@.skip(i + fv@.len()), fv@, to@)));
            i = i + fv.len();
        } else {
            proof {
                if fv@.len() > 0 && has_prefix(rest, fv@) {
                    assert(rest.subrange(0, fv@.len() as int) =~= sv@.subrange(i as int, i + fv@.len()));
                }
            }
            assert(rest.drop_first() =~= sv@.skip(i + 1));
            assert(rest[0] == sv@[i as int]);
            if fv.len() == 0 {
                r.append(to);
            }
            push_char(&mut r, sv[i]);
            if fv.len() == 0 {
                assert(r@ + replaced_all(sv@.skip(i + 1), fv@, to@) =~= before + (to@ + seq![sv@[i as int]] + replaced_all(sv@.skip(i + 1), fv@, to@)));
            } else {
                assert(r@ + replaced_all(sv@.skip(i + 1), fv@, to@) =~= before + (seq![sv@[i as int]] + replaced_all(sv@.skip(i + 1), fv@, to@)));
            }
            i = i + 1;
        }
    }
    assert(sv@.skip(i as int).len() == 0);
    if fv.len() == 0 {
        r.append(to);
    }
    assert(r@ =~= replaced_all(s@, from@, to@)) by {
        assert(sv@.skip(i as int) =~= Seq::<char>::empty());
    }
    r
}

/// The text of an absolute path with the home directory `home` written as
/// `~` wherever it occurs.
pub fn resolved_path(absolute: &Path, home: &str) -> (r: String)
    ensures
        r@ == replaced_all(absolute@, home@, "~"@),
{
    replace_all_text(absolute.as_str(), home, "~")
}

} // verus!
