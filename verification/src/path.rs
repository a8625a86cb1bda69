//! `Path`: a filesystem path held as text, with the operations that only
//! look at the text (components, names, extensions, joining, relating two
//! paths).  What a path names on disk is read by the caller and passed in.
use vstd::prelude::*;
use std::collections::VecDeque;

use crate::path_utils::{
    collapse_separators, remove_duplicate_separators, remove_start, remove_trailing_slash,
    removed_at_start, repeat, subpath_depth, trim_trailing_slashes, with_trailing_separator,
    add_trailing_separator, path_str_to_relative_subpath, expand_home_regex, regex_replace_all,
    repl_beg, replaced_at_start, checked_remove_start,
};
use crate::errors::{debug_quoted, debug_text, Error};
use crate::path_cmp::byte_len;
use crate::text::{
    chars_of, contains_seq, has_prefix, owned, push_char, push_chars, string_from, string_of,
    vec_contains, vec_eq, vec_starts_with,
};

verus! {

/// A path, held as the text it was made from.
#[derive(Debug)]
pub struct Path {
    inner: String,
}

impl View for Path {
    type V = Seq<char>;

    closed spec fn view(&self) -> Seq<char> {
        self.inner@
    }
}

impl Clone for Path {
    fn clone(&self) -> (r: Path)
        ensures
            r@ == self@,
    {
        Path { inner: self.inner.clone() }
    }
}

impl PartialEq for Path {
    fn eq(&self, other: &Path) -> (r: bool) {
        let a = chars_of(self.inner.as_str());
        let b = chars_of(other.inner.as_str());
        vec_eq(&a, &b)
    }
}

impl vstd::std_specs::cmp::PartialEqSpecImpl for Path {
    open spec fn obeys_eq_spec() -> bool {
        true
    }

    open spec fn eq_spec(&self, other: &Path) -> bool {
        self@ == other@
    }
}

impl Eq for Path {}

/// The views of a sequence of strings.
pub open spec fn views(v: Seq<String>) -> Seq<Seq<char>> {
    v.map_values(|s: String| s@)
}

/// The segments completed so far and the segment in progress, after reading `s`
/// from the left; a `/` ends a segment, empty segments are dropped.
pub open spec fn scan_segments(s: Seq<char>) -> (Seq<Seq<char>>, Seq<char>)
    decreases s.len(),
{
    if s.len() == 0 {
        (Seq::empty(), Seq::empty())
    } else {
        let (done, cur) = scan_segments(s.drop_last());
        if s.last() == '/' {
            (if cur.len() > 0 { done.push(cur) } else { done }, Seq::empty())
        } else {
            (done, cur.push(s.last()))
        }
    }
}

/// The non-empty pieces of `s` between separators, in order.
pub open spec fn segments(s: Seq<char>) -> Seq<Seq<char>> {
    let (done, cur) = scan_segments(s);
    if cur.len() > 0 { done.push(cur) } else { done }
}

/// The parts of a path: `/` first for an absolute path, then its segments.
pub open spec fn path_parts(s: Seq<char>) -> Seq<Seq<char>> {
    if has_prefix(s, seq!['/']) { seq![seq!['/']] + segments(s) } else { segments(s) }
}

/// The last segment that is not `.`, unless it is `..` (the final normal
/// component of a path).
pub open spec fn last_normal(q: Seq<Seq<char>>) -> Option<Seq<char>>
    decreases q.len(),
{
    if q.len() == 0 {
        None
    } else if q.last() == seq!['.'] {
        last_normal(q.drop_last())
    } else if q.last() == seq!['.', '.'] {
        None
    } else {
        Some(q.last())
    }
}

/// The file name of a path: its final normal component, if it has one.
pub open spec fn file_name(s: Seq<char>) -> Option<Seq<char>> {
    last_normal(segments(s))
}

/// The name of a path, empty where it has no final normal component.
pub open spec fn path_name(s: Seq<char>) -> Seq<char> {
    match file_name(s) {
        Some(n) => n,
        None => Seq::empty(),
    }
}

/// The position of the last `.` in `s`, if any.
pub open spec fn last_dot(s: Seq<char>) -> Option<int>
    decreases s.len(),
{
    if s.len() == 0 {
        None
    } else if s.last() == '.' {
        Some(s.len() - 1)
    } else {
        last_dot(s.drop_last())
    }
}

/// The extension of a file name: what follows its last `.`, where that `.` is
/// not the first character.
pub open spec fn name_extension(name: Seq<char>) -> Option<Seq<char>> {
    match last_dot(name) {
        Some(i) => if i == 0 { None } else { Some(name.skip(i + 1)) },
        None => None,
    }
}

/// The extension of a path, with its leading `.`.
pub open spec fn path_extension(s: Seq<char>) -> Option<Seq<char>> {
    match file_name(s) {
        Some(n) => match name_extension(n) {
            Some(e) => Some(seq!['.'] + e),
            None => None,
        },
        None => None,
    }
}

/// The stem and extension of a name split at its last `.`.
pub open spec fn split_name(name: Seq<char>) -> (Seq<char>, Option<Seq<char>>) {
    match last_dot(name) {
        Some(i) => (name.take(i), Some(name.skip(i + 1))),
        None => (name, None),
    }
}

/// A name joined with an optional extension.
pub open spec fn joined_extension(name: Seq<char>, ext: Option<Seq<char>>) -> Seq<char> {
    match ext {
        Some(e) => name + seq!['.'] + e,
        None => name,
    }
}

/// `path` joined onto `base`: an absolute `path` replaces `base`; otherwise the
/// two are joined by a separator, with runs of separators collapsed.
pub open spec fn joined(base: Seq<char>, path: Seq<char>) -> Seq<char> {
    let q = collapse_separators(path);
    if has_prefix(q, seq!['/']) || base.len() == 0 {
        q
    } else {
        collapse_separators(base + seq!['/'] + path)
    }
}

/// A path made from text: runs of separators collapsed, and a leading `~/`
/// replaced by `tilde` (the home directory followed by a separator).
pub open spec fn new_path(path: Seq<char>, tilde: Seq<char>) -> Seq<char> {
    let s = collapse_separators(path);
    if has_prefix(s, seq!['~', '/']) { tilde + s.skip(2) } else { s }
}

/// The longest path text, in bytes, that `Path::safe` accepts on the
/// operating system named `os`.
pub open spec fn filename_limit(os: Seq<char>) -> nat {
    if os == seq!['m', 'a', 'c', 'o', 's'] { 255 } else { 1024 }
}

/// The longest path text, in bytes, that `Path::safe` accepts on the
/// operating system named `os` (`"macos"` or another).
pub fn filename_max(os: &str) -> (r: usize)
    ensures
        r == filename_limit(os@),
{
    let v = chars_of(os);
    let mut mac: Vec<char> = Vec::new();
    mac.push('m');
    mac.push('a');
    mac.push('c');
    mac.push('o');
    mac.push('s');
    assert(mac@ =~= seq!['m', 'a', 'c', 'o', 's']);
    if vec_eq(&v, &mac) { 255 } else { 1024 }
}

/// The parent of a path as `std::path::Path::parent` computes it, shown as text.
pub uninterp spec fn std_parent(s: Seq<char>) -> Option<Seq<char>>;

/// Computes `std::path::Path::new(s).parent()` and shows it as text.
#[verifier::external_body]
fn parent_text(s: &str) -> (r: Option<String>)
    ensures
        match r {
            Some(p) => std_parent(s@) == Some(p@),
            None => std_parent(s@) is None,
        },
{
    std::path::Path::new(s).parent().map(|p| p.display().to_string())
}

/// Whether `c` is white space (`char::is_whitespace`: the characters with
/// the Unicode `White_Space` property).
pub open spec fn is_white_space(c: char) -> bool {
    let u = c as u32;
    ||| 0x9 <= u <= 0xd
    ||| u == 0x20 || u == 0x85 || u == 0xa0 || u == 0x1680
    ||| 0x2000 <= u <= 0x200a
    ||| u == 0x2028 || u == 0x2029 || u == 0x202f || u == 0x205f || u == 0x3000
}

/// `s` without the white space at its start.
pub open spec fn trim_start(s: Seq<char>) -> Seq<char>
    decreases s.len(),
{
    if s.len() > 0 && is_white_space(s[0]) { trim_start(s.drop_first()) } else { s }
}

/// `s` without the white space at its end.
pub open spec fn trim_end(s: Seq<char>) -> Seq<char>
    decreases s.len(),
{
    if s.len() > 0 && is_white_space(s.last()) { trim_end(s.drop_last()) } else { s }
}

/// The result of `str::trim` on `s`: white space removed at both ends.
pub open spec fn trimmed(s: Seq<char>) -> Seq<char> {
    trim_end(trim_start(s))
}

/// Computes `str::trim`, which removes the characters for which
/// `char::is_whitespace` holds from both ends of `s`.
#[verifier::external_body]
pub(crate) fn trim_text(s: &str) -> (r: String)
    ensures
        r@ == trimmed(s@),
{
    s.trim().to_string()
}

/// `p` with `.` put before its name, unless the name starts with one.
pub open spec fn hidden_of(p: Seq<char>) -> Seq<char> {
    if has_prefix(path_name(p), seq!['.']) {
        p
    } else {
        joined(parent_of(p), seq!['.'] + path_name(p))
    }
}

/// `p` with the home directory `tilde` at its start written as `~/`.
pub open spec fn tildified(p: Seq<char>, tilde: Seq<char>) -> Seq<char> {
    if has_prefix(p, tilde) {
        seq!['~', '/'] + p.skip(tilde.len() as int)
    } else {
        p
    }
}

/// The parent that `Path::parent` gives: that of `std::path::Path`, or `./`
/// where that is missing or blank.
pub open spec fn parent_of(s: Seq<char>) -> Seq<char> {
    let p = match std_parent(s) {
        Some(p) => p,
        None => Seq::empty(),
    };
    if trimmed(p).len() == 0 { seq!['.', '/'] } else { p }
}

/// `s` with the first occurrence of `from` (known to be a prefix) replaced by `to`.
pub open spec fn replace_prefix(s: Seq<char>, from: Seq<char>, to: Seq<char>) -> Seq<char> {
    to + s.skip(from.len() as int)
}

/// The strings of a sequence of `String`s, executed.
fn push_segment(done: &mut Vec<String>, cur: &Vec<char>)
    ensures
        views(final(done)@) == views(old(done)@).push(cur@),
{
    let s = string_from(cur);
    done.push(s);
    assert(views(done@) =~= views(old(done)@).push(cur@));
}

/// The segments of `v`.
fn segments_of(v: &Vec<char>) -> (r: Vec<String>)
    ensures
        views(r@) == segments(v@),
{
    let mut done: Vec<String> = Vec::new();
    let mut cur: Vec<char> = Vec::new();
    let mut i: usize = 0;
    assert(views(done@) =~= Seq::<Seq<char>>::empty());
    assert(v@.subrange(0, 0) =~= Seq::<char>::empty());
    while i < v.len()
        invariant
            i <= v@.len(),
            (views(done@), cur@) == scan_segments(v@.subrange(0, i as int)),
        decreases v.len() - i,
    {
        assert(v@.subrange(0, i + 1).drop_last() =~= v@.subrange(0, i as int));
        assert(v@.subrange(0, i + 1).last() == v@[i as int]);
        if v[i] == '/' {
            if cur.len() > 0 {
                push_segment(&mut done, &cur);
            }
            cur = Vec::new();
            assert(cur@ =~= Seq::<char>::empty());
        } else {
            cur.push(v[i]);
        }
        i = i + 1;
    }
    assert(v@.subrange(0, v@.len() as int) =~= v@);
    if cur.len() > 0 {
        push_segment(&mut done, &cur);
    }
    done
}

/// Finds the final normal component among `segs`.
fn last_normal_of(segs: &Vec<String>) -> (r: Option<String>)
    ensures
        match r {
            Some(n) => last_normal(views(segs@)) == Some(n@),
            None => last_normal(views(segs@)) is None,
        },
{
    let mut k = segs.len();
    assert(views(segs@).take(k as int) =~= views(segs@));
    while k > 0
        invariant
            k <= segs@.len(),
            last_normal(views(segs@)) == last_normal(views(segs@).take(k as int)),
        decreases k,
    {
        let seg = chars_of(segs[k - 1].as_str());
        let ghost q = views(segs@).take(k as int);
        assert(q.last() == seg@);
        assert(q.drop_last() =~= views(segs@).take(k - 1));
        if is_dot(&seg) {
            k = k - 1;
        } else if is_dot_dot(&seg) {
            return None;
        } else {
            return Some(string_from(&seg));
        }
    }
    assert(views(segs@).take(0) =~= Seq::<Seq<char>>::empty());
    None
}

/// Whether `v` is `.`.
fn is_dot(v: &Vec<char>) -> (r: bool)
    ensures
        r == (v@ == seq!['.']),
{
    if v.len() == 1 && v[0] == '.' {
        assert(v@ =~= seq!['.']);
        true
    } else {
        false
    }
}

/// Whether `v` is `..`.
fn is_dot_dot(v: &Vec<char>) -> (r: bool)
    ensures
        r == (v@ == seq!['.', '.']),
{
    if v.len() == 2 && v[0] == '.' && v[1] == '.' {
        assert(v@ =~= seq!['.', '.']);
        true
    } else {
        false
    }
}

/// Finds the last `.` in `v`.
fn last_dot_of(v: &Vec<char>) -> (r: Option<usize>)
    ensures
        match r {
            Some(i) => i < v@.len() && last_dot(v@) == Some(i as int),
            None => last_dot(v@) is None,
        },
{
    let mut k = v.len();
    assert(v@.take(k as int) =~= v@);
    while k > 0
        invariant
            k <= v@.len(),
            last_dot(v@) == last_dot(v@.take(k as int)),
        decreases k,
    {
        assert(v@.take(k as int).drop_last() =~= v@.take(k - 1));
        if v[k - 1] == '.' {
            return Some(k - 1);
        }
        k = k - 1;
    }
    None
}

impl Path {
    /// A path holding `inner` exactly.
    pub fn raw(inner: &str) -> (r: Path)
        ensures
            r@ == inner@,
    {
        Path { inner: owned(inner) }
    }

    /// A path holding the text `inner` exactly.
    pub fn from_string(inner: String) -> (r: Path)
        ensures
            r@ == inner@,
    {
        Path { inner }
    }

    /// A path made from `path`: runs of separators collapsed and a leading `~/`
    /// replaced by `tilde` (the home directory followed by a separator).
    pub fn new(path: &str, tilde: &str) -> (r: Path)
        ensures
            r@ == new_path(path@, tilde@),
    {
        let s = remove_duplicate_separators(path);
        let v = chars_of(s.as_str());
        let mut home = Vec::new();
        home.push('~');
        home.push('/');
        assert(home@ =~= seq!['~', '/']);
        if vec_starts_with(&v, &home) {
            let mut r = owned(tilde);
            push_chars(&mut r, &v, 2, v.len());
            assert(r@ =~= tilde@ + v@.skip(2));
            Path { inner: r }
        } else {
            Path { inner: s }
        }
    }

    /// Like `new`, but refuses a path whose text is longer than
    /// `filename_max(os)` bytes, where `os` names the operating system.
    pub fn safe(path: &str, tilde: &str, os: &str) -> (r: Result<Path, Error>)
        ensures
            r is Ok <==> byte_len(new_path(path@, tilde@)) <= filename_limit(os@),
            r matches Ok(p) ==> p@ == new_path(path@, tilde@),
            r matches Err(e) ==> e matches Error::FileSystemError(m) && m@
                == "iocore::fs::Path path too long in "@ + debug_quoted(os@) + ": "@
                + debug_quoted(new_path(path@, tilde@)),
    {
        let p = Path::new(path, tilde);
        if p.inner.as_str().len() > filename_max(os) {
            let mut m = owned("iocore::fs::Path path too long in ");
            let quoted_os = debug_text(os);
            m.append(quoted_os.as_str());
            m.append(": ");
            let quoted_path = debug_text(p.inner.as_str());
            m.append(quoted_path.as_str());
            Err(Error::FileSystemError(m))
        } else {
            Ok(p)
        }
    }

    /// The text of this path.
    pub fn inner_string(&self) -> (r: String)
        ensures
            r@ == self@,
    {
        self.inner.clone()
    }

    /// The text of this path, borrowed.
    pub fn as_str(&self) -> (r: &str)
        ensures
            r@ == self@,
    {
        self.inner.as_str()
    }

    /// The text of this path (what `Display` shows).
    pub fn to_string(&self) -> (r: String)
        ensures
            r@ == self@,
    {
        self.inner.clone()
    }

    /// The UTF-8 bytes of this path.
    pub fn to_bytes(&self) -> (r: Vec<u8>)
        ensures
            r@ == vstd::utf8::encode_utf8(self@),
    {
        let b = self.inner.as_str().as_bytes();
        let mut r: Vec<u8> = Vec::new();
        let mut i: usize = 0;
        while i < b.len()
            invariant
                i <= b@.len(),
                r@ == b@.subrange(0, i as int),
            decreases b.len() - i,
        {
            r.push(b[i]);
            assert(r@ =~= b@.subrange(0, i + 1));
            i = i + 1;
        }
        assert(b@.subrange(0, b@.len() as int) =~= b@);
        r
    }

    /// Whether `content` occurs in the text of this path.
    pub fn contains(&self, content: &str) -> (r: bool)
        ensures
            r == contains_seq(self@, content@),
    {
        let a = chars_of(self.inner.as_str());
        let b = chars_of(content);
        vec_contains(&a, &b)
    }

    /// Whether this path starts at the root.
    pub fn is_absolute(&self) -> (r: bool)
        ensures
            r == has_prefix(self@, seq!['/']),
    {
        let a = chars_of(self.inner.as_str());
        let mut root = Vec::new();
        root.push('/');
        assert(root@ =~= seq!['/']);
        vec_starts_with(&a, &root)
    }

    /// The parts of this path: `/` first when it is absolute, then its non-empty segments.
    pub fn split(&self) -> (r: VecDeque<String>)
        ensures
            views(r@) == path_parts(self@),
    {
        let a = chars_of(self.inner.as_str());
        let segs = segments_of(&a);
        let mut r: VecDeque<String> = VecDeque::new();
        let ghost head: Seq<Seq<char>> = if has_prefix(self@, seq!['/']) { seq![seq!['/']] } else { seq![] };
        if self.is_absolute() {
            let mut root = String::new();
            push_char(&mut root, '/');
            r.push_back(root);
        }
        let mut i: usize = 0;
        assert(views(r@) =~= head + views(segs@).take(0));
        while i < segs.len()
            invariant
                i <= segs@.len(),
                views(r@) == head + views(segs@).take(i as int),
            decreases segs.len() - i,
        {
            let ghost before = r@;
            r.push_back(owned(segs[i].as_str()));
            assert(r@ == before.push(r@.last()));
            assert(views(r@) =~= views(before).push(segs@[i as int]@));
            assert(views(segs@).take(i + 1) =~= views(segs@).take(i as int).push(segs@[i as int]@));
            assert(views(r@) =~= head + views(segs@).take(i + 1));
            i = i + 1;
        }
        assert(views(segs@).take(segs@.len() as int) =~= views(segs@));
        r
    }

    /// `path` joined onto this path: an absolute `path` replaces this one;
    /// otherwise the two are joined by a separator, runs of separators collapsed.
    pub fn join(&self, path: &str) -> (r: Path)
        ensures
            r@ == joined(self@, path@),
    {
        let q = remove_duplicate_separators(path);
        let qv = chars_of(q.as_str());
        let mut root = Vec::new();
        root.push('/');
        assert(root@ =~= seq!['/']);
        if vec_starts_with(&qv, &root) || self.inner.as_str().unicode_len() == 0 {
            return Path { inner: q };
        }
        let mut whole = self.inner.clone();
        push_char(&mut whole, '/');
        whole.append(path);
        assert(whole@ =~= self@ + seq!['/'] + path@);
        Path { inner: remove_duplicate_separators(whole.as_str()) }
    }

    /// The final normal component of this path; empty where there is none.
    pub fn name(&self) -> (r: String)
        ensures
            r@ == path_name(self@),
    {
        let a = chars_of(self.inner.as_str());
        let segs = segments_of(&a);
        match last_normal_of(&segs) {
            Some(n) => n,
            None => {
                let r = String::new();
                assert(r@ =~= Seq::<char>::empty());
                r
            },
        }
    }

    /// Whether the name of this path starts with `.`.
    pub fn is_hidden(&self) -> (r: bool)
        ensures
            r == has_prefix(path_name(self@), seq!['.']),
    {
        let n = self.name();
        let v = chars_of(n.as_str());
        let mut dot = Vec::new();
        dot.push('.');
        assert(dot@ =~= seq!['.']);
        vec_starts_with(&v, &dot)
    }

    /// The name of this path split at its last `.` into stem and extension.
    pub fn split_extension(&self) -> (r: (String, Option<String>))
        ensures
            r.0@ == split_name(path_name(self@)).0,
            match r.1 {
                Some(e) => split_name(path_name(self@)).1 == Some(e@),
                None => split_name(path_name(self@)).1 is None,
            },
    {
        let n = self.name();
        let v = chars_of(n.as_str());
        match last_dot_of(&v) {
            Some(i) => {
                let stem = string_of(&v, 0, i);
                let n = v.len();
                let ext = string_of(&v, i + 1, n);
                assert(v@.subrange(0, i as int) =~= v@.take(i as int));
                assert(v@.subrange(i + 1, v@.len() as int) =~= v@.skip(i + 1));
                (stem, Some(ext))
            },
            None => (n, None),
        }
    }

    /// `name` followed by `.` and `extension` when there is one.
    pub fn join_extension(name: &str, extension: Option<String>) -> (r: String)
        ensures
            r@ == joined_extension(name@, match extension {
                Some(e) => Some(e@),
                None => None,
            }),
    {
        match extension {
            None => owned(name),
            Some(extension) => {
                let mut r = owned(name);
                push_char(&mut r, '.');
                r.append(extension.as_str());
                assert(r@ =~= name@ + seq!['.'] + extension@);
                r
            },
        }
    }

    /// The extension of this path with its leading `.`, if it has one.
    pub fn extension(&self) -> (r: Option<String>)
        ensures
            match r {
                Some(e) => path_extension(self@) == Some(e@),
                None => path_extension(self@) is None,
            },
    {
        let a = chars_of(self.inner.as_str());
        let segs = segments_of(&a);
        match last_normal_of(&segs) {
            None => None,
            Some(n) => {
                let v = chars_of(n.as_str());
                match last_dot_of(&v) {
                    Some(i) => {
                        if i == 0 {
                            None
                        } else {
                            let n = v.len();
                            let mut e = String::new();
                            push_char(&mut e, '.');
                            push_chars(&mut e, &v, i + 1, n);
                            assert(e@ =~= seq!['.'] + v@.skip(i + 1));
                            Some(e)
                        }
                    },
                    None => None,
                }
            },
        }
    }

    /// The parent of this path, `./` where it has none or it is blank.
    pub fn parent(&self) -> (r: Option<Path>)
        ensures
            r matches Some(p) && p@ == parent_of(self@),
    {
        let p = match parent_text(self.inner.as_str()) {
            Some(p) => p,
            None => {
                let e = String::new();
                assert(e@ =~= Seq::<char>::empty());
                e
            },
        };
        let t = trim_text(p.as_str());
        if t.as_str().unicode_len() == 0 {
            let mut r = String::new();
            push_char(&mut r, '.');
            push_char(&mut r, '/');
            assert(r@ =~= seq!['.', '/']);
            Some(Path { inner: r })
        } else {
            Some(Path { inner: p })
        }
    }

    /// The text of the parent of this path.
    pub fn parents(&self) -> (r: String)
        ensures
            r@ == parent_of(self@),
    {
        match self.parent() {
            Some(p) => p.inner,
            None => String::new(),
        }
    }

    /// The name of the parent of this path.
    pub fn parent_name(&self) -> (r: String)
        ensures
            r@ == path_name(parent_of(self@)),
    {
        match self.parent() {
            Some(p) => p.name(),
            None => String::new(),
        }
    }

    /// A sibling of this path: `name` joined onto its parent.
    pub fn with_filename(&self, name: &str) -> (r: Path)
        ensures
            r@ == joined(parent_of(self@), name@),
    {
        match self.parent() {
            Some(p) => p.join(name),
            None => Path::raw(name),
        }
    }

    /// This path with its extension removed from its name.
    pub fn without_extension(&self) -> (r: Path)
        ensures
            r@ == joined(parent_of(self@), match path_extension(self@) {
                Some(e) => path_name(self@).take(path_name(self@).len() - e.len()),
                None => path_name(self@),
            }),
    {
        let n = self.name();
        let v = chars_of(n.as_str());
        let stem = match self.extension() {
            Some(e) => {
                proof {
                    lemma_extension_is_suffix(self@);
                }
                let el = e.as_str().unicode_len();
                let s = string_of(&v, 0, v.len() - el);
                assert(v@.subrange(0, v@.len() - e@.len()) =~= v@.take(v@.len() - e@.len()));
                s
            },
            None => n,
        };
        match self.parent() {
            Some(p) => p.join(stem.as_str()),
            None => Path::raw(stem.as_str()),
        }
    }

    /// This path with its extension replaced by `extension` (a leading `.` is
    /// added when missing).
    pub fn with_extension(&self, extension: &str, tilde: &str) -> (r: Path)
        ensures
            r@ == new_path(
                self.without_extension_spec() + if has_prefix(extension@, seq!['.']) {
                    extension@
                } else {
                    seq!['.'] + extension@
                },
                tilde@,
            ),
    {
        let ev = chars_of(extension);
        let mut dot = Vec::new();
        dot.push('.');
        assert(dot@ =~= seq!['.']);
        let mut s = self.without_extension().inner;
        if !vec_starts_with(&ev, &dot) {
            push_char(&mut s, '.');
        }
        s.append(extension);
        assert(s@ =~= self.without_extension_spec() + if has_prefix(extension@, seq!['.']) {
            extension@
        } else {
            seq!['.'] + extension@
        });
        Path::new(s.as_str(), tilde)
    }

    /// The text that `without_extension` gives.
    pub open spec fn without_extension_spec(&self) -> Seq<char> {
        joined(parent_of(self@), match path_extension(self@) {
            Some(e) => path_name(self@).take(path_name(self@).len() - e.len()),
            None => path_name(self@),
        })
    }

    /// This path with `.` put before its name, unless the name starts with one.
    pub fn hidden(&self) -> (r: Path)
        ensures
            r@ == hidden_of(self@),
    {
        let n = self.name();
        if self.is_hidden() {
            self.clone()
        } else {
            let mut h = String::new();
            push_char(&mut h, '.');
            h.append(n.as_str());
            assert(h@ =~= seq!['.'] + path_name(self@));
            self.with_filename(h.as_str())
        }
    }

    /// This path with the home directory `tilde` (followed by a separator)
    /// at its start written as `~/`.
    pub fn tildify(&self, tilde: &str) -> (r: Path)
        ensures
            r@ == tildified(self@, tilde@),
    {
        let s = chars_of(self.inner.as_str());
        let t = chars_of(tilde);
        if vec_starts_with(&s, &t) {
            let mut r = String::new();
            push_char(&mut r, '~');
            push_char(&mut r, '/');
            push_chars(&mut r, &s, t.len(), s.len());
            assert(r@ =~= seq!['~', '/'] + self@.skip(tilde@.len() as int));
            Path { inner: r }
        } else {
            self.clone()
        }
    }

    /// This path with a leading `~` replaced by `home` (with the `regex`
    /// crate's expansion of capture references in `home`).
    pub fn expand(&self, home: &str) -> (r: Path)
        ensures
            Some(r@) == if has_prefix(self@, seq!['~']) {
                regex_replace_all(seq!['^', '~'], self@, home@)
            } else {
                Some(self@)
            },
    {
        let s = chars_of(self.inner.as_str());
        if s.len() > 0 && s[0] == '~' {
            assert(s@.subrange(0, 1) =~= seq!['~']);
            Path { inner: expand_home_regex(self.inner.as_str(), home) }
        } else {
            proof {
                if has_prefix(self@, seq!['~']) {
                    assert(self@.subrange(0, 1)[0] == self@[0]);
                }
            }
            self.clone()
        }
    }
}

/// The text `Path::relative_to` gives for `own` relative to `other`, given
/// their canonical forms `cs` and `ct` and whether those exist: `./` where the
/// canonical forms are the same; otherwise, with `s` and `t` the canonical
/// forms that exist (the given texts where they do not), the rest of `s`
/// after `t/` where `s` extends `t`, one `../` per component of the rest of
/// `t` after `s/` where `t` extends `s`, and `t` itself otherwise.  `None`
/// where a regular expression built from the texts does not compile.
pub open spec fn relative_text(
    own: Seq<char>,
    other: Seq<char>,
    cs: Seq<char>,
    cs_exists: bool,
    ct: Seq<char>,
    ct_exists: bool,
    tilde: Seq<char>,
) -> Option<Seq<char>> {
    if cs == ct {
        Some(seq!['.', '/'])
    } else {
        let s = if cs_exists { cs } else { own };
        let t = if ct_exists { ct } else { other };
        if s.len() > t.len() && has_prefix(s, t) {
            match removed_at_start(t, s) {
                Some(n) => Some(new_path(n, tilde)),
                None => None,
            }
        } else if s.len() < t.len() && has_prefix(t, s) {
            match removed_at_start(s, t) {
                Some(w) => Some(repeat(seq!['.', '.', '/'], subpath_depth(trim_trailing_slashes(w)))),
                None => None,
            }
        } else {
            Some(t)
        }
    }
}

/// Whether the parts of `a` are fewer than those of `b` and begin them.
pub open spec fn parts_prefix(a: Seq<char>, b: Seq<char>) -> bool {
    path_parts(a).len() < path_parts(b).len() && path_parts(b).take(path_parts(a).len() as int)
        == path_parts(a)
}

impl Path {
    /// This path relative to `t`.  The caller resolves the two paths first:
    /// `canonical_self` and `canonical_t` are their canonical forms, and
    /// `self_exists` and `t_exists` tell whether those exist; `tilde` is the
    /// home directory followed by a separator.
    pub fn relative_to(
        &self,
        t: &Path,
        canonical_self: &Path,
        self_exists: bool,
        canonical_t: &Path,
        t_exists: bool,
        tilde: &str,
    ) -> (r: Path)
        requires
            relative_text(self@, t@, canonical_self@, self_exists, canonical_t@, t_exists, tilde@) is Some,
        ensures
            Some(r@) == relative_text(self@, t@, canonical_self@, self_exists, canonical_t@, t_exists, tilde@),
    {
        if canonical_self.eq(canonical_t) {
            let mut dot = String::new();
            push_char(&mut dot, '.');
            push_char(&mut dot, '/');
            assert(dot@ =~= seq!['.', '/']);
            return Path { inner: dot };
        }
        let s = if self_exists { canonical_self.inner_string() } else { self.inner_string() };
        let tt = if t_exists { canonical_t.inner_string() } else { t.inner_string() };
        let sv = chars_of(s.as_str());
        let tv = chars_of(tt.as_str());
        if sv.len() > tv.len() && vec_starts_with(&sv, &tv) {
            let n = remove_start(tt.as_str(), s.as_str());
            return Path::new(n.as_str(), tilde);
        }
        if sv.len() < tv.len() && vec_starts_with(&tv, &sv) {
            let w = remove_start(s.as_str(), tt.as_str());
            let w = remove_trailing_slash(w.as_str());
            return Path { inner: path_str_to_relative_subpath(w.as_str()) };
        }
        Path { inner: tt }
    }

    /// Like `relative_to`, but `None` where a regular expression built from
    /// the texts does not compile.
    pub fn checked_relative_to(
        &self,
        t: &Path,
        canonical_self: &Path,
        self_exists: bool,
        canonical_t: &Path,
        t_exists: bool,
        tilde: &str,
    ) -> (r: Option<Path>)
        ensures
            match r {
                Some(p) => Some(p@) == relative_text(self@, t@, canonical_self@, self_exists, canonical_t@, t_exists, tilde@),
                None => relative_text(self@, t@, canonical_self@, self_exists, canonical_t@, t_exists, tilde@) is None,
            },
    {
        if !canonical_self.eq(canonical_t) {
            let s = if self_exists { canonical_self.inner_string() } else { self.inner_string() };
            let tt = if t_exists { canonical_t.inner_string() } else { t.inner_string() };
            let sv = chars_of(s.as_str());
            let tv = chars_of(tt.as_str());
            if sv.len() > tv.len() && vec_starts_with(&sv, &tv) {
                if checked_remove_start(tt.as_str(), s.as_str()).is_none() {
                    return None;
                }
            } else if sv.len() < tv.len() && vec_starts_with(&tv, &sv) {
                if checked_remove_start(s.as_str(), tt.as_str()).is_none() {
                    return None;
                }
            }
        }
        Some(self.relative_to(t, canonical_self, self_exists, canonical_t, t_exists, tilde))
    }

    /// This path relative to the current directory `cwd`, resolved by the
    /// caller as for `relative_to`.
    pub fn relative_to_cwd(
        &self,
        cwd: &Path,
        canonical_self: &Path,
        self_exists: bool,
        canonical_cwd: &Path,
        cwd_exists: bool,
        tilde: &str,
    ) -> (r: Option<Path>)
        ensures
            match r {
                Some(p) => Some(p@) == relative_text(self@, cwd@, canonical_self@, self_exists, canonical_cwd@, cwd_exists, tilde@),
                None => relative_text(self@, cwd@, canonical_self@, self_exists, canonical_cwd@, cwd_exists, tilde@) is None,
            },
    {
        self.checked_relative_to(cwd, canonical_self, self_exists, canonical_cwd, cwd_exists, tilde)
    }

    /// Whether the parts of this path are fewer than those of `other` and
    /// begin them.  The paths are compared as given: callers resolve them
    /// first.
    pub fn is_parent_of(&self, other: &Path) -> (r: bool)
        ensures
            r == parts_prefix(self@, other@),
    {
        let this = self.split();
        let that = other.split();
        if this.len() >= that.len() {
            return false;
        }
        let mut i: usize = 0;
        while i < this.len()
            invariant
                this@.len() < that@.len(),
                views(this@) == path_parts(self@),
                views(that@) == path_parts(other@),
                i <= this@.len(),
                forall|j: int| 0 <= j < i ==> #[trigger] this@[j]@ == that@[j]@,
            decreases this.len() - i,
        {
            let a = chars_of(this[i].as_str());
            let b = chars_of(that[i].as_str());
            if !vec_eq(&a, &b) {
                assert(views(that@).take(views(this@).len() as int)[i as int] != views(this@)[i as int]);
                return false;
            }
            i = i + 1;
        }
        assert(views(that@).take(views(this@).len() as int) =~= views(this@));
        true
    }
}

proof fn lemma_last_dot_bound(s: Seq<char>)
    ensures
        last_dot(s) matches Some(i) ==> 0 <= i < s.len() && s[i] == '.',
    decreases s.len(),
{
    if s.len() > 0 && s.last() != '.' {
        lemma_last_dot_bound(s.drop_last());
        if let Some(i) = last_dot(s.drop_last()) {
            assert(s[i] == s.drop_last()[i]);
        }
    }
}

/// The extension of a path (with its `.`) is a suffix of the path's name.
proof fn lemma_extension_is_suffix(s: Seq<char>)
    ensures
        path_extension(s) matches Some(e) ==> e.len() <= path_name(s).len() && path_name(s).skip(
            path_name(s).len() - e.len(),
        ) == e,
{
    if let Some(n) = file_name(s) {
        lemma_last_dot_bound(n);
        if let Some(i) = last_dot(n) {
            if i != 0 {
                assert(n.skip(i) =~= seq!['.'] + n.skip(i + 1));
            }
        }
    }
}

} // verus!

verus! {

/// Splitting a name at its last `.` and joining the two parts again gives
/// the name back.
pub proof fn lemma_split_join_extension(name: Seq<char>)
    ensures
        joined_extension(split_name(name).0, split_name(name).1) == name,
{
    lemma_last_dot_bound(name);
    if let Some(i) = last_dot(name) {
        assert(name.take(i) + seq!['.'] + name.skip(i + 1) =~= name);
    }
}

/// Writing the home directory as `~/` and making a path of the result gives
/// the path back, for a path that starts with the home directory (which ends
/// with a separator) and has no two separators in a row.
pub proof fn lemma_tildify_then_new(p: Seq<char>, tilde: Seq<char>)
    requires
        has_prefix(p, tilde),
        tilde.len() > 0,
        tilde.last() == '/',
        crate::path_utils::no_double_separator(p),
    ensures
        new_path(seq!['~', '/'] + p.skip(tilde.len() as int), tilde) == p,
{
    let rest = p.skip(tilde.len() as int);
    let q = seq!['~', '/'] + rest;
    assert(p =~= tilde + rest) by {
        assert(p.subrange(0, tilde.len() as int) == tilde);
    }
    if rest.len() > 0 {
        assert(p[tilde.len() - 1] == '/');
        assert(p[tilde.len() as int] == rest[0]);
        assert(rest[0] != '/');
    }
    assert(crate::path_utils::no_double_separator(q)) by {
        assert forall|i: int| 0 <= i < q.len() - 1 implies !(#[trigger] q[i] == '/' && q[i + 1] == '/') by {
            if i >= 2 {
                assert(q[i] == p[tilde.len() + i - 2] && q[i + 1] == p[tilde.len() + i - 1]);
            }
        }
    }
    crate::path_utils::lemma_collapse_keeps_single_separators(q);
    assert(q.subrange(0, 2) =~= seq!['~', '/']);
    assert(q.skip(2) =~= rest);
}

/// `Path::new` of what `Path::tildify` gives is the path again
/// (`new_path(tildified(p, tilde), tilde) == p`), for a path with no two
/// separators in a row that does not itself start with `~/`, when the home
/// directory `tilde` ends with a separator.
pub proof fn lemma_new_of_tildified(p: Seq<char>, tilde: Seq<char>)
    requires
        tilde.len() > 0,
        tilde.last() == '/',
        crate::path_utils::no_double_separator(p),
        !has_prefix(p, seq!['~', '/']),
    ensures
        new_path(tildified(p, tilde), tilde) == p,
{
    if has_prefix(p, tilde) {
        lemma_tildify_then_new(p, tilde);
    } else {
        crate::path_utils::lemma_collapse_keeps_single_separators(p);
    }
}

/// Joining an absolute path onto any path gives the absolute path (with runs
/// of separators collapsed); joining onto an empty path gives the joined path.
pub proof fn lemma_join_absolute(base: Seq<char>, path: Seq<char>)
    ensures
        has_prefix(path, seq!['/']) ==> joined(base, path) == collapse_separators(path),
        base.len() == 0 ==> joined(base, path) == collapse_separators(path),
{
    if has_prefix(path, seq!['/']) {
        crate::path_utils::lemma_collapse_prefix_slash(path);
    }
}

} // verus!

verus! {

/// Whether `x` holds no separator.
pub open spec fn no_separator(x: Seq<char>) -> bool {
    forall|i: int| 0 <= i < x.len() ==> x[i] != '/'
}

proof fn lemma_scan_segments_shape(s: Seq<char>)
    ensures
        forall|i: int| 0 <= i < scan_segments(s).0.len() ==> (#[trigger] scan_segments(s).0[i]).len() > 0
            && no_separator(scan_segments(s).0[i]),
        no_separator(scan_segments(s).1),
    decreases s.len(),
{
    if s.len() > 0 {
        lemma_scan_segments_shape(s.drop_last());
        let (done, cur) = scan_segments(s.drop_last());
        if s.last() != '/' {
            assert(no_separator(cur.push(s.last()))) by {
                assert forall|i: int| 0 <= i < cur.push(s.last()).len() implies cur.push(s.last())[i] != '/' by {
                    if i < cur.len() {
                        assert(cur.push(s.last())[i] == cur[i]);
                    }
                }
            }
        } else if cur.len() > 0 {
            assert forall|i: int| 0 <= i < done.push(cur).len() implies (#[trigger] done.push(cur)[i]).len() > 0
                && no_separator(done.push(cur)[i]) by {
                if i < done.len() {
                    assert(done.push(cur)[i] == done[i]);
                }
            }
        }
    }
}

proof fn lemma_last_normal_member(q: Seq<Seq<char>>)
    ensures
        last_normal(q) matches Some(v) ==> (exists|i: int| 0 <= i < q.len() && q[i] == v)
            && v != seq!['.'] && v != seq!['.', '.'],
    decreases q.len(),
{
    if q.len() > 0 {
        lemma_last_normal_member(q.drop_last());
        if q.last() == seq!['.'] {
            if let Some(v) = last_normal(q.drop_last()) {
                let i = choose|i: int| 0 <= i < q.drop_last().len() && q.drop_last()[i] == v;
                assert(q[i] == v);
            }
        } else if q.last() != seq!['.', '.'] {
            assert(q[q.len() - 1] == q.last());
        }
    }
}

/// A name of a path is a non-empty piece without separators that is neither
/// `.` nor `..`.
proof fn lemma_name_shape(p: Seq<char>)
    requires
        path_name(p).len() > 0,
    ensures
        no_separator(path_name(p)),
        path_name(p) != seq!['.'],
        path_name(p) != seq!['.', '.'],
{
    lemma_last_normal_member(segments(p));
    lemma_scan_segments_shape(p);
    let (done, cur) = scan_segments(p);
    let n = path_name(p);
    let q = segments(p);
    let i = choose|i: int| 0 <= i < q.len() && q[i] == n;
    if cur.len() > 0 {
        if i < done.len() {
            assert(q[i] == done[i]);
        } else {
            assert(q[i] == cur);
        }
    } else {
        assert(q[i] == done[i]);
    }
}

proof fn lemma_scan_append(c: Seq<char>, x: Seq<char>)
    requires
        no_separator(x),
    ensures
        scan_segments(c + x) == (scan_segments(c).0, scan_segments(c).1 + x),
    decreases x.len(),
{
    if x.len() == 0 {
        assert(c + x =~= c);
        assert(scan_segments(c).1 + x =~= scan_segments(c).1);
    } else {
        let y = x.drop_last();
        assert(no_separator(y)) by {
            assert forall|i: int| 0 <= i < y.len() implies y[i] != '/' by {
                assert(y[i] == x[i]);
            }
        }
        lemma_scan_append(c, y);
        assert((c + x).drop_last() =~= c + y);
        assert((c + x).last() == x[x.len() - 1]);
        assert((scan_segments(c).1 + y).push(x.last()) =~= scan_segments(c).1 + x);
    }
}

proof fn lemma_collapse_last(a: Seq<char>)
    requires
        a.len() > 0,
    ensures
        collapse_separators(a).len() > 0,
        collapse_separators(a).last() == a.last(),
    decreases a.len(),
{
    let t = a.drop_first();
    if a.len() >= 2 {
        lemma_collapse_last(t);
        assert(t.last() == a.last());
        if !(a[0] == '/' && a[1] == '/') {
            let r = seq![a[0]] + collapse_separators(t);
            assert(r.last() == collapse_separators(t).last());
        }
    } else {
        assert(collapse_separators(t) =~= Seq::<char>::empty());
        assert((seq![a[0]] + collapse_separators(t)).last() == a[0]);
    }
}

proof fn lemma_collapse_append(a: Seq<char>, x: Seq<char>)
    requires
        a.len() > 0,
        a.last() == '/',
        no_separator(x),
    ensures
        collapse_separators(a + x) == collapse_separators(a) + x,
    decreases a.len(),
{
    if x.len() == 0 {
        assert(a + x =~= a);
        assert(collapse_separators(a) + x =~= collapse_separators(a));
    } else if a.len() == 1 {
        assert(crate::path_utils::no_double_separator(x)) by {
            assert forall|i: int| 0 <= i < x.len() - 1 implies !(#[trigger] x[i] == '/' && x[i + 1] == '/') by {}
        }
        crate::path_utils::lemma_collapse_keeps_single_separators(x);
        assert((a + x).drop_first() =~= x);
        assert((a + x)[1] == x[0]);
        assert(a.drop_first() =~= Seq::<char>::empty());
        assert(seq![a[0]] + x =~= a + x);
    } else {
        lemma_collapse_append(a.drop_first(), x);
        assert((a + x).drop_first() =~= a.drop_first() + x);
        assert((a + x)[0] == a[0] && (a + x)[1] == a[1]);
        assert(seq![a[0]] + (collapse_separators(a.drop_first()) + x) =~= (seq![a[0]] + collapse_separators(a.drop_first())) + x);
    }
}

/// The name of a path joined with a name that holds no separator and is
/// neither `.` nor `..` is that name.
proof fn lemma_name_of_joined(base: Seq<char>, x: Seq<char>)
    requires
        x.len() > 0,
        x[0] != '/',
        no_separator(x),
        x != seq!['.'],
        x != seq!['.', '.'],
    ensures
        path_name(joined(base, x)) == x,
{
    assert(crate::path_utils::no_double_separator(x)) by {
        assert forall|i: int| 0 <= i < x.len() - 1 implies !(#[trigger] x[i] == '/' && x[i + 1] == '/') by {}
    }
    crate::path_utils::lemma_collapse_keeps_single_separators(x);
    assert(!has_prefix(x, seq!['/'])) by {
        assert(x.subrange(0, 1)[0] == x[0]);
    }
    let c = if base.len() == 0 {
        Seq::<char>::empty()
    } else {
        let a = base + seq!['/'];
        assert(base + seq!['/'] + x =~= a + x);
        lemma_collapse_append(a, x);
        lemma_collapse_last(a);
        collapse_separators(a)
    };
    if base.len() == 0 {
        assert(c + x =~= x);
    }
    assert(joined(base, x) == c + x);
    lemma_scan_append(c, x);
    if c.len() > 0 {
        assert(c =~= c.drop_last().push('/'));
        assert(scan_segments(c).1 == Seq::<char>::empty());
    }
    assert(scan_segments(c).1 + x =~= x);
    let q = segments(c + x);
    assert(q == scan_segments(c).0.push(x));
    assert(q.last() == x);
}

/// Hiding a path that has a name gives a path whose name starts with `.`;
/// hiding it again changes nothing; a path whose name already starts with
/// `.` is left as it is.
pub proof fn lemma_hidden_idempotent(p: Seq<char>)
    requires
        path_name(p).len() > 0,
    ensures
        has_prefix(path_name(hidden_of(p)), seq!['.']),
        hidden_of(hidden_of(p)) == hidden_of(p),
        has_prefix(path_name(p), seq!['.']) ==> hidden_of(p) == p,
{
    let n = path_name(p);
    if !has_prefix(n, seq!['.']) {
        lemma_name_shape(p);
        let x = seq!['.'] + n;
        assert(no_separator(x)) by {
            assert forall|i: int| 0 <= i < x.len() implies x[i] != '/' by {
                if i > 0 {
                    assert(x[i] == n[i - 1]);
                }
            }
        }
        assert(x != seq!['.']) by {
            assert(x.len() == n.len() + 1);
        }
        assert(x != seq!['.', '.']) by {
            if x =~= seq!['.', '.'] {
                assert(n =~= seq!['.']);
            }
        }
        lemma_name_of_joined(parent_of(p), x);
        assert(x.subrange(0, 1) =~= seq!['.']);
    }
}

/// Where a text has no `.`, `last_dot` finds none; where it finds one, no
/// `.` follows it.
proof fn lemma_last_dot_is_last(s: Seq<char>)
    ensures
        last_dot(s) is None <==> (forall|j: int| 0 <= j < s.len() ==> s[j] != '.'),
        last_dot(s) matches Some(i) ==> 0 <= i < s.len() && s[i] == '.' && (forall|j: int|
            i < j < s.len() ==> s[j] != '.'),
    decreases s.len(),
{
    if s.len() > 0 {
        lemma_last_dot_is_last(s.drop_last());
        if s.last() != '.' {
            if last_dot(s.drop_last()) is None {
                assert forall|j: int| 0 <= j < s.len() implies s[j] != '.' by {
                    if j < s.len() - 1 {
                        assert(s[j] == s.drop_last()[j]);
                    }
                }
            } else {
                let i = last_dot(s.drop_last())->0;
                assert(s[i] == s.drop_last()[i]);
                assert forall|j: int| i < j < s.len() implies s[j] != '.' by {
                    if j < s.len() - 1 {
                        assert(s[j] == s.drop_last()[j]);
                    }
                }
            }
        } else {
            assert(s[s.len() - 1] == '.');
        }
    }
}

/// A name is split at its last `.`: it has an extension exactly when it holds
/// a `.`; the extension holds no `.`, and the stem, a `.` and the extension
/// make the name again.
pub proof fn lemma_split_at_last_dot(name: Seq<char>)
    ensures
        split_name(name).1 is Some <==> name.contains('.'),
        split_name(name).1 is None ==> split_name(name).0 == name,
        split_name(name).1 matches Some(e) ==> !e.contains('.')
            && split_name(name).0 + seq!['.'] + e == name,
{
    lemma_last_dot_is_last(name);
    match last_dot(name) {
        Some(i) => {
            assert(name.contains('.')) by {
                assert(name[i] == '.');
            }
            let e = name.skip(i + 1);
            assert(!e.contains('.')) by {
                if e.contains('.') {
                    let j = choose|j: int| 0 <= j < e.len() && e[j] == '.';
                    assert(name[i + 1 + j] == '.');
                }
            }
            assert(name.take(i) + seq!['.'] + e =~= name);
        },
        None => {
            if name.contains('.') {
                let j = choose|j: int| 0 <= j < name.len() && name[j] == '.';
            }
        },
    }
}

} // verus!
