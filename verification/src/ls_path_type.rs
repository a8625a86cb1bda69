//! The one-character kind marks of a long directory listing.
use vstd::prelude::*;

use crate::path_type::PathType;
use crate::text::push_char;

verus! {

/// The kind of an entry as `ls -l` marks it.
#[derive(Debug, Clone, Copy, PartialEq, Eq, Structural, PartialOrd, Ord, Hash)]
pub enum LsPathType {
    File,
    Symlink,
    Setuid,
    Directory,
    Nonexistent,
}

/// The listing kind of each path kind.
pub open spec fn ls_path_type_of(p: PathType) -> LsPathType {
    match p {
        PathType::File => LsPathType::File,
        PathType::Symlink => LsPathType::Symlink,
        PathType::Setuid => LsPathType::Setuid,
        PathType::Directory => LsPathType::Directory,
        PathType::Nonexistent => LsPathType::Nonexistent,
    }
}

/// The path kind of each listing kind.
pub open spec fn ls_path_type_kind(t: LsPathType) -> PathType {
    match t {
        LsPathType::File => PathType::File,
        LsPathType::Symlink => PathType::Symlink,
        LsPathType::Setuid => PathType::Setuid,
        LsPathType::Directory => PathType::Directory,
        LsPathType::Nonexistent => PathType::Nonexistent,
    }
}

/// The mark of each listing kind.
pub open spec fn ls_path_type_char(t: LsPathType) -> char {
    match t {
        LsPathType::File => '-',
        LsPathType::Symlink => 'l',
        LsPathType::Setuid => 's',
        LsPathType::Directory => 'd',
        LsPathType::Nonexistent => '?',
    }
}

impl LsPathType {
    /// Returns the mark of this kind.
    pub fn into_char(self) -> (c: char)
        ensures
            c == ls_path_type_char(self),
    {
        match self {
            LsPathType::File => '-',
            LsPathType::Symlink => 'l',
            LsPathType::Setuid => 's',
            LsPathType::Directory => 'd',
            LsPathType::Nonexistent => '?',
        }
    }

    /// Returns the mark of this kind as a one-character `String`.
    pub fn to_string(&self) -> (r: String)
        ensures
            r@ == seq![ls_path_type_char(*self)],
    {
        let mut r = String::new();
        push_char(&mut r, self.into_char());
        assert(r@ =~= seq![ls_path_type_char(*self)]);
        r
    }

    /// Returns the path kind of this listing kind.
    pub fn path_type(self) -> (p: PathType)
        ensures
            p == ls_path_type_kind(self),
    {
        match self {
            LsPathType::File => PathType::File,
            LsPathType::Symlink => PathType::Symlink,
            LsPathType::Setuid => PathType::Setuid,
            LsPathType::Directory => PathType::Directory,
            LsPathType::Nonexistent => PathType::Nonexistent,
        }
    }
}

impl vstd::std_specs::convert::FromSpecImpl<PathType> for LsPathType {
    open spec fn obeys_from_spec() -> bool {
        true
    }

    open spec fn from_spec(v: PathType) -> LsPathType {
        ls_path_type_of(v)
    }
}

impl From<PathType> for LsPathType {
    fn from(p: PathType) -> (r: LsPathType) {
        match p {
            PathType::File => LsPathType::File,
            PathType::Symlink => LsPathType::Symlink,
            PathType::Setuid => LsPathType::Setuid,
            PathType::Directory => LsPathType::Directory,
            PathType::Nonexistent => LsPathType::Nonexistent,
        }
    }
}

/// Converting a path kind to a listing kind and back gives the path kind.
pub proof fn lemma_ls_path_type_roundtrip(p: PathType)
    ensures
        ls_path_type_kind(ls_path_type_of(p)) == p,
{
}

/// Converting a listing kind to a path kind and back gives the listing kind.
pub proof fn lemma_ls_path_type_roundtrip_back(t: LsPathType)
    ensures
        ls_path_type_of(ls_path_type_kind(t)) == t,
{
}

} // verus!
