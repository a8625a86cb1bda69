//! `Entry`: a path found by a walk, by the kind of entry it is.
use vstd::prelude::*;

use crate::node::{Node, kind_of};
use crate::path::Path;
use crate::path_type::PathType;
use crate::size::Size;
use crate::text::owned;
use crate::walk::info::Info;

verus! {

/// A path found by a walk, by kind.
#[derive(Debug)]
pub enum Entry {
    Directory(Info),
    EmptyDirectory(Info),
    File(Info),
    Nonexistent(Info),
    Setuid(Info),
    Symlink(Info),
}

/// The information an entry carries.
pub open spec fn entry_info(e: Entry) -> Info {
    match e {
        Entry::Directory(i) => i,
        Entry::EmptyDirectory(i) => i,
        Entry::File(i) => i,
        Entry::Nonexistent(i) => i,
        Entry::Setuid(i) => i,
        Entry::Symlink(i) => i,
    }
}

/// The name of each kind of entry.
pub open spec fn entry_kind_name(e: Entry) -> Seq<char> {
    match e {
        Entry::Directory(_) => "Directory"@,
        Entry::EmptyDirectory(_) => "EmptyDirectory"@,
        Entry::File(_) => "File"@,
        Entry::Nonexistent(_) => "None"@,
        Entry::Setuid(_) => "Setuid"@,
        Entry::Symlink(_) => "Symlink"@,
    }
}

/// The entry of each path kind.
pub open spec fn entry_matches_kind(e: Entry, t: PathType) -> bool {
    match t {
        PathType::File => e is File,
        PathType::Symlink => e is Symlink,
        PathType::Setuid => e is Setuid,
        PathType::Directory => e is Directory,
        PathType::Nonexistent => e is Nonexistent,
    }
}

/// The prefix that names the kind of an entry.
pub open spec fn entry_unit_id(e: Entry) -> Seq<char> {
    "iocore::walk::entry::Entry::"@ + entry_kind_name(e)
}

impl Entry {
    /// The entry for `info`, by the kind of entry that `node` (the metadata
    /// of its path) reports.
    pub fn from_info(info: &Info, node: &Node) -> (r: Entry)
        ensures
            entry_matches_kind(r, kind_of(node.is_file, node.is_dir, node.is_symlink)),
            entry_info(r).path@ == info.path@,
            entry_info(r).size@ == info.size@,
    {
        let i = info.duplicate();
        match info.path.kind(node) {
            PathType::File => Entry::File(i),
            PathType::Symlink => Entry::Symlink(i),
            PathType::Setuid => Entry::Setuid(i),
            PathType::Directory => Entry::Directory(i),
            PathType::Nonexistent => Entry::Nonexistent(i),
        }
    }

    /// The entry for `path`, whose metadata the caller read into `node`.
    pub fn from_path(path: &Path, node: &Node) -> (r: Entry)
        ensures
            entry_matches_kind(r, kind_of(node.is_file, node.is_dir, node.is_symlink)),
            entry_info(r).path@ == path@,
            entry_info(r).size@ == node.size,
    {
        let info = Info::of(path, node);
        Entry::from_info(&info, node)
    }

    /// The information of this entry.
    pub fn info(&self) -> (r: Info)
        ensures
            r.path@ == entry_info(*self).path@,
            r.size@ == entry_info(*self).size@,
    {
        match self {
            Entry::EmptyDirectory(info) => info.duplicate(),
            Entry::File(info) => info.duplicate(),
            Entry::Symlink(info) => info.duplicate(),
            Entry::Setuid(info) => info.duplicate(),
            Entry::Nonexistent(info) => info.duplicate(),
            Entry::Directory(info) => info.duplicate(),
        }
    }

    /// The path of this entry.
    pub fn path(&self) -> (r: Path)
        ensures
            r@ == entry_info(*self).path@,
    {
        self.info().path()
    }

    /// The size of this entry.
    pub fn size(&self) -> (r: Size)
        ensures
            r@ == entry_info(*self).size@,
    {
        self.info().size()
    }

    /// Adds `size` to a directory entry; other entries stay as they are.
    pub fn increment_size(&mut self, size: Size)
        requires
            *old(self) is Directory ==> entry_info(*old(self)).size@ + size@ <= u64::MAX,
        ensures
            !(*old(self) is Directory) ==> *final(self) == *old(self),
            *old(self) is Directory ==> (*final(self) is Directory
                && entry_info(*final(self)).path == entry_info(*old(self)).path
                && entry_info(*final(self)).size@ == entry_info(*old(self)).size@ + size@),
            entry_kind_name(*final(self)) == entry_kind_name(*old(self)),
    {
        match self {
            Entry::Directory(info) => {
                info.increment_size(size);
            },
            _ => {},
        }
    }

    /// The name of the kind of this entry, qualified by its module.
    pub fn variant_unit_id(&self) -> (r: String)
        ensures
            r@ == entry_unit_id(*self),
    {
        let mut r = owned("iocore::walk::entry::Entry::");
        r.append(match self {
            Entry::EmptyDirectory(_) => "EmptyDirectory",
            Entry::File(_) => "File",
            Entry::Symlink(_) => "Symlink",
            Entry::Setuid(_) => "Setuid",
            Entry::Directory(_) => "Directory",
            Entry::Nonexistent(_) => "None",
        });
        r
    }

    /// The identity of this entry: its kind and its path joined by `%`.
    pub fn id(&self) -> (r: String)
        ensures
            r@ == entry_unit_id(*self) + "%"@ + entry_info(*self).path@,
    {
        let mut r = self.variant_unit_id();
        r.append("%");
        let p = self.info().to_string();
        r.append(p.as_str());
        r
    }

    /// How this entry is shown: its kind followed by its path.
    pub fn to_string(&self) -> (r: String)
        ensures
            r@ == entry_unit_id(*self) + entry_info(*self).path@,
    {
        let mut r = self.variant_unit_id();
        let p = self.path();
        r.append(p.as_str());
        r
    }
}

} // verus!
