//! The one-character kind marks of a long directory listing.
use vstd::prelude::*;

use crate::path_type::PathType;
use crate::text::push_char;

verus! {

/// The kind of an entry as `ls -l` marks it.
#[derive(Debug, Clone, Copy, PartialEq, Eq, Structural, PartialOrd, Ord, Hash)]
pub enum LsNodeType {
    File,
    Symlink,
    Setuid,
    Directory,
    Nonexistent,
}

/// The listing kind of each path kind.
pub open spec fn ls_node_type_of(p: PathType) -> LsNodeType {
    match p {
        PathType::File => LsNodeType::File,
        PathType::Symlink => LsNodeType::Symlink,
        PathType::Setuid => LsNodeType::Setuid,
        PathType::Directory => LsNodeType::Directory,
        PathType::Nonexistent => LsNodeType::Nonexistent,
    }
}

/// The path kind of each listing kind.
pub open spec fn ls_node_type_kind(t: LsNodeType) -> PathType {
    match t {
        LsNodeType::File => PathType::File,
        LsNodeType::Symlink => PathType::Symlink,
        LsNodeType::Setuid => PathType::Setuid,
        LsNodeType::Directory => PathType::Directory,
        LsNodeType::Nonexistent => PathType::Nonexistent,
    }
}

/// The mark of each listing kind.
pub open spec fn ls_node_type_char(t: LsNodeType) -> char {
    match t {
        LsNodeType::File => '-',
        LsNodeType::Symlink => 'l',
        LsNodeType::Setuid => 's',
        LsNodeType::Directory => 'd',
        LsNodeType::Nonexistent => '?',
    }
}

impl LsNodeType {
    /// Returns the mark of this kind.
    pub fn into_char(self) -> (c: char)
        ensures
            c == ls_node_type_char(self),
    {
        match self {
            LsNodeType::File => '-',
            LsNodeType::Symlink => 'l',
            LsNodeType::Setuid => 's',
            LsNodeType::Directory => 'd',
            LsNodeType::Nonexistent => '?',
        }
    }

    /// Returns the mark of this kind as a one-character `String`.
    pub fn to_string(&self) -> (r: String)
        ensures
            r@ == seq![ls_node_type_char(*self)],
    {
        let mut r = String::new();
        push_char(&mut r, self.into_char());
        assert(r@ =~= seq![ls_node_type_char(*self)]);
        r
    }

    /// Returns the path kind of this listing kind.
    pub fn path_type(self) -> (p: PathType)
        ensures
            p == ls_node_type_kind(self),
    {
        match self {
            LsNodeType::File => PathType::File,
            LsNodeType::Symlink => PathType::Symlink,
            LsNodeType::Setuid => PathType::Setuid,
            LsNodeType::Directory => PathType::Directory,
            LsNodeType::Nonexistent => PathType::Nonexistent,
        }
    }
}

impl vstd::std_specs::convert::FromSpecImpl<PathType> for LsNodeType {
    open spec fn obeys_from_spec() -> bool {
        true
    }

    open spec fn from_spec(v: PathType) -> LsNodeType {
        ls_node_type_of(v)
    }
}

impl From<PathType> for LsNodeType {
    fn from(p: PathType) -> (r: LsNodeType) {
        match p {
            PathType::File => LsNodeType::File,
            PathType::Symlink => LsNodeType::Symlink,
            PathType::Setuid => LsNodeType::Setuid,
            PathType::Directory => LsNodeType::Directory,
            PathType::Nonexistent => LsNodeType::Nonexistent,
        }
    }
}

/// Converting a path kind to a listing kind and back gives the path kind.
pub proof fn lemma_ls_node_type_roundtrip(p: PathType)
    ensures
        ls_node_type_kind(ls_node_type_of(p)) == p,
{
}

/// Converting a listing kind to a path kind and back gives the listing kind.
pub proof fn lemma_ls_node_type_roundtrip_back(t: LsNodeType)
    ensures
        ls_node_type_of(ls_node_type_kind(t)) == t,
{
}

} // verus!
