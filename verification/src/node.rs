//! `Node`: what the filesystem reported about a path (its metadata), and
//! what follows from it: the kind of entry, whether it is writable, whether
//! it exists.  The caller reads the metadata and builds the node.
use vstd::prelude::*;

use crate::ls_node_type::{LsNodeType, ls_node_type_of};
use crate::path::{Path, path_name};
use crate::path_status::PathStatus;
use crate::path_type::PathType;

verus! {

/// A point in time as seconds and nanoseconds since the Unix epoch.
#[derive(Debug, Clone, Copy, PartialEq, Eq, Structural)]
pub struct Timestamp {
    pub secs: i64,
    pub nanos: u32,
}

/// The metadata of a path.
#[derive(Debug)]
pub struct Node {
    pub path: Path,
    pub ino: u64,
    pub gid: u32,
    pub uid: u32,
    pub size: u64,
    pub is_dir: bool,
    pub is_file: bool,
    pub is_symlink: bool,
    pub accessed: Option<Timestamp>,
    pub created: Option<Timestamp>,
    pub modified: Option<Timestamp>,
    pub mode: u32,
}

/// The kind of entry that the flags describe: a file first, then a
/// directory, then a symlink.
pub open spec fn kind_of(is_file: bool, is_dir: bool, is_symlink: bool) -> PathType {
    if is_file {
        PathType::File
    } else if is_dir {
        PathType::Directory
    } else if is_symlink {
        PathType::Symlink
    } else {
        PathType::Nonexistent
    }
}

/// Whether a mode has no write permission for anyone (`Permissions::readonly`
/// on Unix).
pub open spec fn mode_readonly(mode: u32) -> bool {
    mode & 0o222u32 == 0
}

/// The status of an entry of kind `t` with permission bits `mode`.
pub open spec fn status_of(t: PathType, mode: u32) -> PathStatus {
    let ro = mode_readonly(mode);
    match t {
        PathType::Directory => if ro { PathStatus::ReadOnlyDirectory } else { PathStatus::WritableDirectory },
        PathType::File => if ro { PathStatus::ReadOnlyFile } else { PathStatus::WritableFile },
        PathType::Symlink => if ro { PathStatus::ReadOnlySymlink } else { PathStatus::WritableSymlink },
        PathType::Setuid => if ro { PathStatus::ReadOnlySetuid } else { PathStatus::WritableSetuid },
        PathType::Nonexistent => PathStatus::Nonexistent,
    }
}

/// Whether `mode` has no write permission for anyone.
pub fn readonly(mode: u32) -> (r: bool)
    ensures
        r == mode_readonly(mode),
{
    mode & 0o222u32 == 0
}

impl Node {
    /// A node from the metadata that the caller read for `path`.
    pub fn from_metadata(
        path: Path,
        ino: u64,
        gid: u32,
        uid: u32,
        size: u64,
        is_dir: bool,
        is_file: bool,
        is_symlink: bool,
        accessed: Option<Timestamp>,
        created: Option<Timestamp>,
        modified: Option<Timestamp>,
        mode: u32,
    ) -> (r: Node)
        ensures
            r.path@ == path@,
            r.ino == ino,
            r.gid == gid,
            r.uid == uid,
            r.size == size,
            r.is_dir == is_dir,
            r.is_file == is_file,
            r.is_symlink == is_symlink,
            r.accessed == accessed,
            r.created == created,
            r.modified == modified,
            r.mode == mode,
    {
        Node { path, ino, gid, uid, size, is_dir, is_file, is_symlink, accessed, created, modified, mode }
    }

    /// The node of a path whose metadata could not be read: every number at
    /// its maximum, no kind, no times.
    pub fn absent(path: Path) -> (r: Node)
        ensures
            r.path@ == path@,
            r.ino == u64::MAX,
            r.gid == u32::MAX,
            r.uid == u32::MAX,
            r.size == u64::MAX,
            !r.is_dir,
            !r.is_file,
            !r.is_symlink,
            r.accessed is None,
            r.created is None,
            r.modified is None,
            r.mode == u32::MAX,
    {
        Node {
            path,
            ino: u64::MAX,
            gid: u32::MAX,
            uid: u32::MAX,
            size: u64::MAX,
            is_dir: false,
            is_file: false,
            is_symlink: false,
            accessed: None,
            created: None,
            modified: None,
            mode: u32::MAX,
        }
    }

    /// When the path was last accessed.
    pub fn accessed(&self) -> (r: Option<Timestamp>)
        ensures
            r == self.accessed,
    {
        self.accessed
    }

    /// When the path was created.
    pub fn created(&self) -> (r: Option<Timestamp>)
        ensures
            r == self.created,
    {
        self.created
    }

    /// When the path was last modified.
    pub fn modified(&self) -> (r: Option<Timestamp>)
        ensures
            r == self.modified,
    {
        self.modified
    }

    /// The kind of entry: a file first, then a directory, then a symlink.
    pub fn path_type(&self) -> (r: PathType)
        ensures
            r == kind_of(self.is_file, self.is_dir, self.is_symlink),
    {
        if self.is_file {
            PathType::File
        } else if self.is_dir {
            PathType::Directory
        } else if self.is_symlink {
            PathType::Symlink
        } else {
            PathType::Nonexistent
        }
    }

    /// The kind of entry together with whether it is writable.
    pub fn path_status(&self) -> (r: PathStatus)
        ensures
            r == status_of(kind_of(self.is_file, self.is_dir, self.is_symlink), self.mode),
    {
        let ro = readonly(self.mode);
        match self.path_type() {
            PathType::Directory => if ro {
                PathStatus::ReadOnlyDirectory
            } else {
                PathStatus::WritableDirectory
            },
            PathType::File => if ro {
                PathStatus::ReadOnlyFile
            } else {
                PathStatus::WritableFile
            },
            PathType::Symlink => if ro {
                PathStatus::ReadOnlySymlink
            } else {
                PathStatus::WritableSymlink
            },
            PathType::Setuid => if ro {
                PathStatus::ReadOnlySetuid
            } else {
                PathStatus::WritableSetuid
            },
            PathType::Nonexistent => PathStatus::Nonexistent,
        }
    }

    /// The kind of entry as `ls` shows it.
    pub fn lst(&self) -> (r: LsNodeType)
        ensures
            r == ls_node_type_of(kind_of(self.is_file, self.is_dir, self.is_symlink)),
    {
        LsNodeType::from(self.path_type())
    }

    /// The path this node describes.
    pub fn path(&self) -> (r: Path)
        ensures
            r@ == self.path@,
    {
        self.path.clone()
    }

    /// The name of the path this node describes.
    pub fn filename(&self) -> (r: String)
        ensures
            r@ == path_name(self.path@),
    {
        self.path.name()
    }

    /// Whether the entry is a writable file, or nothing is there.
    pub fn is_writable_file(&self) -> (r: bool)
        ensures
            r == (status_of(kind_of(self.is_file, self.is_dir, self.is_symlink), self.mode) == PathStatus::WritableFile
                || status_of(kind_of(self.is_file, self.is_dir, self.is_symlink), self.mode) == PathStatus::Nonexistent),
    {
        match self.path_status() {
            PathStatus::WritableFile | PathStatus::Nonexistent => true,
            _ => false,
        }
    }

    /// The same test as `is_writable_file`: a writable file, or nothing there.
    pub fn is_writable_directory(&self) -> (r: bool)
        ensures
            r == (status_of(kind_of(self.is_file, self.is_dir, self.is_symlink), self.mode) == PathStatus::WritableFile
                || status_of(kind_of(self.is_file, self.is_dir, self.is_symlink), self.mode) == PathStatus::Nonexistent),
    {
        match self.path_status() {
            PathStatus::WritableFile | PathStatus::Nonexistent => true,
            _ => false,
        }
    }

    /// The same test as `is_writable_file`: a writable file, or nothing there.
    pub fn is_writable_symlink(&self) -> (r: bool)
        ensures
            r == (status_of(kind_of(self.is_file, self.is_dir, self.is_symlink), self.mode) == PathStatus::WritableFile
                || status_of(kind_of(self.is_file, self.is_dir, self.is_symlink), self.mode) == PathStatus::Nonexistent),
    {
        match self.path_status() {
            PathStatus::WritableFile | PathStatus::Nonexistent => true,
            _ => false,
        }
    }

    /// Whether the metadata describes an entry (a file, directory or symlink).
    pub fn path_exists(&self) -> (r: bool)
        ensures
            r == (status_of(kind_of(self.is_file, self.is_dir, self.is_symlink), self.mode) != PathStatus::Nonexistent),
    {
        self.path_status() != PathStatus::Nonexistent
    }
}

/// Everything a node holds, its path as text.
pub open spec fn node_view(n: Node) -> (Seq<char>, u64, u32, u32, u64, bool, bool, bool, Option<Timestamp>, Option<Timestamp>, Option<Timestamp>, u32) {
    (n.path@, n.ino, n.gid, n.uid, n.size, n.is_dir, n.is_file, n.is_symlink, n.accessed, n.created, n.modified, n.mode)
}

impl Node {
    /// A copy of this node.
    pub fn duplicate(&self) -> (r: Node)
        ensures
            node_view(r) == node_view(*self),
    {
        Node {
            path: self.path.clone(),
            ino: self.ino,
            gid: self.gid,
            uid: self.uid,
            size: self.size,
            is_dir: self.is_dir,
            is_file: self.is_file,
            is_symlink: self.is_symlink,
            accessed: self.accessed,
            created: self.created,
            modified: self.modified,
            mode: self.mode,
        }
    }
}

/// A stack of nodes: the last pushed is the first popped.
#[derive(Debug)]
pub struct NodeStack {
    stack: std::collections::VecDeque<Node>,
}

impl View for NodeStack {
    type V = Seq<(Seq<char>, u64, u32, u32, u64, bool, bool, bool, Option<Timestamp>, Option<Timestamp>, Option<Timestamp>, u32)>;

    closed spec fn view(&self) -> Self::V {
        self.stack@.map_values(|n: Node| node_view(n))
    }
}

impl NodeStack {
    /// An empty stack.
    pub fn new() -> (r: NodeStack)
        ensures
            r@.len() == 0,
    {
        let r = NodeStack { stack: std::collections::VecDeque::new() };
        assert(r@ =~= Seq::empty());
        r
    }

    /// Puts a copy of `node` on top, and returns the new number of nodes.
    pub fn push(&mut self, node: &Node) -> (r: usize)
        requires
            old(self)@.len() < usize::MAX,
        ensures
            final(self)@ == seq![node_view(*node)] + old(self)@,
            r == final(self)@.len(),
    {
        let ghost before = self.stack@;
        self.stack.push_front(node.duplicate());
        assert(self.stack@.map_values(|n: Node| node_view(n)) =~= seq![node_view(*node)] + before.map_values(|n: Node| node_view(n)));
        self.len()
    }

    /// Takes the top node off, if there is one.
    pub fn pop(&mut self) -> (r: Option<Node>)
        ensures
            old(self)@.len() == 0 ==> (r is None && final(self)@ == old(self)@),
            old(self)@.len() > 0 ==> (r matches Some(n) && node_view(n) == old(self)@[0]
                && final(self)@ == old(self)@.drop_first()),
    {
        let ghost before = self.stack@;
        let r = self.stack.pop_front();
        proof {
            if before.len() > 0 {
                assert(self.stack@.map_values(|n: Node| node_view(n)) =~= before.map_values(|n: Node| node_view(n)).drop_first());
            }
        }
        r
    }

    /// The number of nodes.
    pub fn len(&self) -> (r: usize)
        ensures
            r == self@.len(),
    {
        self.stack.len()
    }
}

} // verus!

verus! {

/// Pushing a node and popping gives that node back and leaves the stack as
/// it was (what `NodeStack::push` and `NodeStack::pop` state of the stack's
/// view).
pub proof fn lemma_stack_push_pop<T>(stack: Seq<T>, top: T)
    ensures
        (seq![top] + stack)[0] == top,
        (seq![top] + stack).drop_first() == stack,
        (seq![top] + stack).len() == stack.len() + 1,
{
    assert((seq![top] + stack).drop_first() =~= stack);
}

/// An entry that exists is writable exactly when some write bit
/// (`0o222`) of its mode is set, and read-only exactly when none is; an
/// entry that does not exist is `Nonexistent` whatever its mode.
pub proof fn lemma_status_writability(m: u32)
    ensures
        status_of(PathType::Directory, m) == PathStatus::WritableDirectory <==> m & 0o222u32 != 0,
        status_of(PathType::Directory, m) == PathStatus::ReadOnlyDirectory <==> m & 0o222u32 == 0,
        status_of(PathType::File, m) == PathStatus::WritableFile <==> m & 0o222u32 != 0,
        status_of(PathType::File, m) == PathStatus::ReadOnlyFile <==> m & 0o222u32 == 0,
        status_of(PathType::Symlink, m) == PathStatus::WritableSymlink <==> m & 0o222u32 != 0,
        status_of(PathType::Symlink, m) == PathStatus::ReadOnlySymlink <==> m & 0o222u32 == 0,
        status_of(PathType::Setuid, m) == PathStatus::WritableSetuid <==> m & 0o222u32 != 0,
        status_of(PathType::Setuid, m) == PathStatus::ReadOnlySetuid <==> m & 0o222u32 == 0,
        status_of(PathType::Nonexistent, m) == PathStatus::Nonexistent,
{
}

} // verus!
