//! Paths held as plain strings (`FilePath`, `NodePath`) and the text relation
//! "relative to an ancestor": the first occurrence of the ancestor followed by
//! a separator is cut out.
use vstd::prelude::*;

use crate::path::Path;
use crate::text::{chars_of, has_suffix, occurs_at, owned, push_char, push_chars, vec_occurs_at};

verus! {

/// The first position from `i` on where `p` occurs in `s`.
pub open spec fn occurrence_from(s: Seq<char>, p: Seq<char>, i: int) -> Option<int>
    decreases s.len() + 1 - i,
{
    if i < 0 || i + p.len() > s.len() {
        None
    } else if occurs_at(s, p, i) {
        Some(i)
    } else {
        occurrence_from(s, p, i + 1)
    }
}

/// `s` with the first occurrence of `p` removed (`str::replacen(p, "", 1)`).
pub open spec fn without_first(s: Seq<char>, p: Seq<char>) -> Seq<char> {
    match occurrence_from(s, p, 0) {
        Some(i) => s.take(i) + s.skip(i + p.len()),
        None => s,
    }
}

/// `ancestor` ending in a separator: itself when it ends with one, otherwise
/// with one appended.
pub open spec fn as_directory(ancestor: Seq<char>) -> Seq<char> {
    if has_suffix(ancestor, seq!['/']) { ancestor } else { ancestor.push('/') }
}

/// `path` relative to `ancestor`: the first occurrence of the ancestor as a
/// directory cut out.
pub open spec fn relative_text_to(path: Seq<char>, ancestor: Seq<char>) -> Seq<char> {
    without_first(path, as_directory(ancestor))
}

/// Cuts the first occurrence of `p` out of `s`.
pub fn remove_first(s: &str, p: &str) -> (r: String)
    ensures
        r@ == without_first(s@, p@),
{
    let sv = chars_of(s);
    let pv = chars_of(p);
    if pv.len() > sv.len() {
        return owned(s);
    }
    let last = sv.len() - pv.len();
    let mut i: usize = 0;
    while i <= last
        invariant
            sv@ == s@,
            pv@ == p@,
            last == sv@.len() - pv@.len(),
            pv@.len() <= sv@.len(),
            i <= last + 1,
            occurrence_from(sv@, pv@, 0) == occurrence_from(sv@, pv@, i as int),
        decreases last + 1 - i,
    {
        if vec_occurs_at(&sv, &pv, i) {
            assert(occurrence_from(sv@, pv@, i as int) == Some(i as int));
            let mut r = String::new();
            push_chars(&mut r, &sv, 0, i);
            let n = sv.len();
            push_chars(&mut r, &sv, i + pv.len(), n);
            assert(r@ =~= sv@.take(i as int) + sv@.skip(i + pv@.len()));
            return r;
        }
        if i == last {
            assert(occurrence_from(sv@, pv@, i + 1) is None);
            assert(occurrence_from(sv@, pv@, i as int) is None);
            return owned(s);
        }
        i = i + 1;
    }
    owned(s)
}

/// Turns `ancestor` into a directory text (a separator at its end).
fn directory_text(ancestor: &str) -> (r: String)
    ensures
        r@ == as_directory(ancestor@),
{
    let v = chars_of(ancestor);
    if v.len() > 0 && v[v.len() - 1] == '/' {
        assert(ancestor@.subrange(ancestor@.len() - 1, ancestor@.len() as int) =~= seq!['/']);
        owned(ancestor)
    } else {
        proof {
            if has_suffix(ancestor@, seq!['/']) {
                assert(ancestor@.subrange(ancestor@.len() - 1, ancestor@.len() as int)[0] == ancestor@[ancestor@.len() - 1]);
            }
        }
        let mut r = owned(ancestor);
        push_char(&mut r, '/');
        r
    }
}

/// Texts that can be read as paths relative to an ancestor.
pub trait StringPath {
    /// This path relative to `ancestor`.
    fn relative_to(&self, ancestor: &str) -> String;

    /// This path as a string.
    fn tostring(&self) -> String;
}

/// Paths that can be made relative to an ancestor path.
pub trait PathRelative: StringPath {
    /// This path relative to the path `ancestor`.
    fn relative_wherewith(&self, ancestor: &Path) -> Path;
}

/// A path held as a string.
#[derive(Debug)]
pub struct FilePath(pub String);

/// A path held as a string, for a node of a tree.
#[derive(Debug)]
pub struct NodePath(pub String);

impl FilePath {
    /// The path holding `source`.
    pub fn from(source: &str) -> (r: FilePath)
        ensures
            r.0@ == source@,
    {
        FilePath(owned(source))
    }

    /// This path as a `Path`.
    pub fn path(&self) -> (r: Path)
        ensures
            r@ == self.0@,
    {
        Path::raw(self.0.as_str())
    }

    /// This path as an owned `Path`.
    pub fn to_path_buf(&self) -> (r: Path)
        ensures
            r@ == self.0@,
    {
        self.path()
    }

    /// This path with the first occurrence of `ancestor` (as a directory)
    /// cut out.
    pub fn to(&self, ancestor: &str) -> (r: String)
        ensures
            r@ == relative_text_to(self.0@, ancestor@),
    {
        let d = directory_text(ancestor);
        remove_first(self.0.as_str(), d.as_str())
    }
}

impl NodePath {
    /// The path holding `source`.
    pub fn from(source: &str) -> (r: NodePath)
        ensures
            r.0@ == source@,
    {
        NodePath(owned(source))
    }

    /// This path as a `Path`.
    pub fn path(&self) -> (r: Path)
        ensures
            r@ == self.0@,
    {
        Path::raw(self.0.as_str())
    }

    /// This path as an owned `Path`.
    pub fn to_path_buf(&self) -> (r: Path)
        ensures
            r@ == self.0@,
    {
        self.path()
    }

    /// This path with the first occurrence of `ancestor` (as a directory)
    /// cut out.
    pub fn to(&self, ancestor: &str) -> (r: String)
        ensures
            r@ == relative_text_to(self.0@, ancestor@),
    {
        let d = directory_text(ancestor);
        remove_first(self.0.as_str(), d.as_str())
    }
}

impl StringPath for FilePath {
    fn relative_to(&self, ancestor: &str) -> (r: String)
        ensures
            r@ == relative_text_to(self.0@, ancestor@),
    {
        self.to(ancestor)
    }

    fn tostring(&self) -> (r: String)
        ensures
            r@ == self.0@,
    {
        owned(self.0.as_str())
    }
}

impl PathRelative for FilePath {
    fn relative_wherewith(&self, ancestor: &Path) -> (r: Path)
        ensures
            r@ == relative_text_to(self.0@, ancestor@),
    {
        let s = self.to(ancestor.as_str());
        Path::from_string(s)
    }
}

impl StringPath for NodePath {
    fn relative_to(&self, ancestor: &str) -> (r: String)
        ensures
            r@ == relative_text_to(self.0@, ancestor@),
    {
        self.to(ancestor)
    }

    fn tostring(&self) -> (r: String)
        ensures
            r@ == self.0@,
    {
        owned(self.0.as_str())
    }
}

impl PathRelative for NodePath {
    fn relative_wherewith(&self, ancestor: &Path) -> (r: Path)
        ensures
            r@ == relative_text_to(self.0@, ancestor@),
    {
        let s = self.to(ancestor.as_str());
        Path::from_string(s)
    }
}

impl StringPath for String {
    fn relative_to(&self, ancestor: &str) -> (r: String)
        ensures
            r@ == relative_text_to(self@, ancestor@),
    {
        FilePath::from(self.as_str()).to(ancestor)
    }

    fn tostring(&self) -> (r: String)
        ensures
            r@ == self@,
    {
        owned(self.as_str())
    }
}

impl PathRelative for String {
    fn relative_wherewith(&self, ancestor: &Path) -> (r: Path)
        ensures
            r@ == relative_text_to(self@, ancestor@),
    {
        let s = FilePath::from(self.as_str()).to(ancestor.as_str());
        Path::from_string(s)
    }
}

} // verus!

verus! {

/// A path made of an ancestor, a separator and a rest is, relative to that
/// ancestor, the rest.
pub proof fn lemma_relative_to_child(ancestor: Seq<char>, rest: Seq<char>)
    requires
        !has_suffix(ancestor, seq!['/']),
    ensures
        relative_text_to(ancestor.push('/') + rest, ancestor) == rest,
{
    let p = ancestor.push('/');
    let s = p + rest;
    assert(as_directory(ancestor) == p);
    assert(occurs_at(s, p, 0)) by {
        assert(s.subrange(0, p.len() as int) =~= p);
    }
    assert(occurrence_from(s, p, 0) == Some(0int));
    assert(s.take(0) + s.skip(p.len() as int) =~= rest);
}

/// An ancestor given with or without its trailing separator gives the same
/// relative path.
pub proof fn lemma_relative_to_trailing_separator(path: Seq<char>, ancestor: Seq<char>)
    requires
        !has_suffix(ancestor, seq!['/']),
    ensures
        relative_text_to(path, ancestor.push('/')) == relative_text_to(path, ancestor),
{
    let a = ancestor.push('/');
    assert(a.subrange(a.len() - 1, a.len() as int) =~= seq!['/']);
}

} // verus!

verus! {

/// The metadata of a path held as a string (`NodePath`).
#[derive(Debug)]
pub struct NodeMeta {
    pub path: NodePath,
    pub mode: u32,
    pub accessed: Option<crate::node::Timestamp>,
    pub modified: Option<crate::node::Timestamp>,
    pub created: Option<crate::node::Timestamp>,
    pub size: u64,
    pub is_file: bool,
    pub is_dir: bool,
    pub is_symlink: bool,
}

/// The metadata of a path held as a string (`FilePath`).
#[derive(Debug)]
pub struct FSNode {
    pub path: FilePath,
    pub mode: u32,
    pub accessed: Option<crate::node::Timestamp>,
    pub modified: Option<crate::node::Timestamp>,
    pub created: Option<crate::node::Timestamp>,
    pub size: u64,
    pub is_file: bool,
    pub is_dir: bool,
    pub is_symlink: bool,
}

impl NodeMeta {
    /// The metadata the caller read for `path`.
    pub fn from_metadata(
        path: NodePath,
        mode: u32,
        accessed: Option<crate::node::Timestamp>,
        modified: Option<crate::node::Timestamp>,
        created: Option<crate::node::Timestamp>,
        size: u64,
        is_file: bool,
        is_dir: bool,
        is_symlink: bool,
    ) -> (r: NodeMeta)
        ensures
            r.path.0@ == path.0@,
            r.mode == mode,
            r.accessed == accessed,
            r.modified == modified,
            r.created == created,
            r.size == size,
            r.is_file == is_file,
            r.is_dir == is_dir,
            r.is_symlink == is_symlink,
    {
        NodeMeta { path, mode, accessed, modified, created, size, is_file, is_dir, is_symlink }
    }

    /// The metadata of a path that could not be read: no kind, no times,
    /// mode and size zero.
    pub fn unreadable(path: NodePath) -> (r: NodeMeta)
        ensures
            r.path.0@ == path.0@,
            r.mode == 0,
            r.accessed is None && r.modified is None && r.created is None,
            r.size == 0,
            !r.is_file && !r.is_dir && !r.is_symlink,
    {
        NodeMeta::from_metadata(path, 0, None, None, None, 0, false, false, false)
    }
}

impl FSNode {
    /// The metadata the caller read for `path`.
    pub fn from_metadata(
        path: FilePath,
        mode: u32,
        accessed: Option<crate::node::Timestamp>,
        modified: Option<crate::node::Timestamp>,
        created: Option<crate::node::Timestamp>,
        size: u64,
        is_file: bool,
        is_dir: bool,
        is_symlink: bool,
    ) -> (r: FSNode)
        ensures
            r.path.0@ == path.0@,
            r.mode == mode,
            r.accessed == accessed,
            r.modified == modified,
            r.created == created,
            r.size == size,
            r.is_file == is_file,
            r.is_dir == is_dir,
            r.is_symlink == is_symlink,
    {
        FSNode { path, mode, accessed, modified, created, size, is_file, is_dir, is_symlink }
    }

    /// The metadata of a path that could not be read: no kind, no times,
    /// mode and size zero.
    pub fn unreadable(path: FilePath) -> (r: FSNode)
        ensures
            r.path.0@ == path.0@,
            r.mode == 0,
            r.accessed is None && r.modified is None && r.created is None,
            r.size == 0,
            !r.is_file && !r.is_dir && !r.is_symlink,
    {
        FSNode::from_metadata(path, 0, None, None, None, 0, false, false, false)
    }
}

/// A file: its path, and its metadata where it was read.
#[derive(Debug)]
pub struct File {
    pub path: FilePath,
    pub meta: Option<FSNode>,
}

impl File {
    /// The file that `meta` describes, at the path it was read for.
    pub fn of(meta: FSNode) -> (r: File)
        ensures
            r.path.0@ == meta.path.0@,
            r.meta == Some(meta),
    {
        File { path: FilePath::from(meta.path.0.as_str()), meta: Some(meta) }
    }
}

impl StringPath for File {
    fn relative_to(&self, ancestor: &str) -> (r: String)
        ensures
            r@ == relative_text_to(self.path.0@, ancestor@),
    {
        self.path.to(ancestor)
    }

    fn tostring(&self) -> (r: String)
        ensures
            r@ == self.path.0@,
    {
        owned(self.path.0.as_str())
    }
}

impl PathRelative for File {
    fn relative_wherewith(&self, ancestor: &Path) -> (r: Path)
        ensures
            r@ == relative_text_to(self.path.0@, ancestor@),
    {
        let s = self.path.to(ancestor.as_str());
        Path::from_string(s)
    }
}

} // verus!
