//! The kinds of filesystem entries a path can name.
use vstd::prelude::*;

use crate::text::{chars_of, owned, vec_eq};

verus! {

/// The kind of entry found at a path; `None` when nothing is there.
#[derive(Debug, Clone, Copy, PartialEq, Eq, Structural, PartialOrd, Ord, Hash)]
pub enum PathType {
    File,
    Symlink,
    Setuid,
    Directory,
    Nonexistent,
}

/// The lower-case name of each kind.
pub open spec fn path_type_name(t: PathType) -> Seq<char> {
    match t {
        PathType::File => "file"@,
        PathType::Symlink => "symlink"@,
        PathType::Setuid => "setuid"@,
        PathType::Directory => "directory"@,
        PathType::Nonexistent => "none"@,
    }
}

/// The result of `str::to_lowercase` (Unicode lower-casing) on `s`.
pub uninterp spec fn unicode_lowercase(s: Seq<char>) -> Seq<char>;

/// `c` with an ASCII capital letter made small.
pub open spec fn ascii_lower_char(c: char) -> char {
    if 'A' <= c && c <= 'Z' { ((c as u32) + 32) as char } else { c }
}

/// Whether every character of `s` is ASCII.
pub open spec fn all_ascii(s: Seq<char>) -> bool {
    forall|i: int| 0 <= i < s.len() ==> (s[i] as u32) < 128
}

/// `s` with its ASCII capital letters made small.
pub open spec fn ascii_lower(s: Seq<char>) -> Seq<char> {
    Seq::new(s.len(), |i: int| ascii_lower_char(s[i]))
}

/// Lower-cases `s` with `str::to_lowercase`; the contract names the result.
/// On ASCII text, Unicode lower-casing maps `A`-`Z` to `a`-`z` and keeps
/// every other character, as `str::to_lowercase` documents.
#[verifier::external_body]
fn lowercase(s: &str) -> (r: String)
    ensures
        r@ == unicode_lowercase(s@),
        all_ascii(s@) ==> r@ == ascii_lower(s@),
{
    s.to_lowercase()
}

/// The kind whose name is `lowered`, or `None`.
pub open spec fn path_type_named(lowered: Seq<char>) -> PathType {
    if lowered == "file"@ {
        PathType::File
    } else if lowered == "symlink"@ {
        PathType::Symlink
    } else if lowered == "setuid"@ {
        PathType::Setuid
    } else if lowered == "directory"@ {
        PathType::Directory
    } else {
        PathType::Nonexistent
    }
}

/// Whether `v` holds the characters of the literal `lit`.
pub fn is_literal(v: &Vec<char>, lit: &str) -> (r: bool)
    ensures
        r == (v@ == lit@),
{
    let l = chars_of(lit);
    vec_eq(v, &l)
}

impl PathType {
    /// Returns the lower-case name of this kind.
    pub fn to_str(self) -> (r: &'static str)
        ensures
            r@ == path_type_name(self),
    {
        match self {
            PathType::File => "file",
            PathType::Symlink => "symlink",
            PathType::Setuid => "setuid",
            PathType::Directory => "directory",
            PathType::Nonexistent => "none",
        }
    }

    /// Returns the name of this kind as a `String`.
    pub fn to_string(&self) -> (r: String)
        ensures
            r@ == path_type_name(*self),
    {
        owned(self.to_str())
    }

    /// Reads a kind from its name, in any letter case; unknown names give `None`.
    pub fn from_name(p: &str) -> (r: PathType)
        ensures
            r == path_type_of_text(p@),
            r == path_type_named(unicode_lowercase(p@)),
    {
        let l = lowercase(p);
        let v = chars_of(l.as_str());
        if is_literal(&v, "file") {
            PathType::File
        } else if is_literal(&v, "symlink") {
            PathType::Symlink
        } else if is_literal(&v, "setuid") {
            PathType::Setuid
        } else if is_literal(&v, "directory") {
            PathType::Directory
        } else {
            PathType::Nonexistent
        }
    }
}

/// The kind that a text names, in any letter case: ASCII text is
/// lower-cased letter by letter, other text as `str::to_lowercase` does.
pub open spec fn path_type_of_text(s: Seq<char>) -> PathType {
    if all_ascii(s) {
        path_type_named(ascii_lower(s))
    } else {
        path_type_named(unicode_lowercase(s))
    }
}

/// `c` with an ASCII small letter made capital.
pub open spec fn ascii_upper_char(c: char) -> char {
    if 'a' <= c && c <= 'z' { ((c as u32) - 32) as char } else { c }
}

/// `s` with its ASCII small letters made capital.
pub open spec fn ascii_upper(s: Seq<char>) -> Seq<char> {
    Seq::new(s.len(), |i: int| ascii_upper_char(s[i]))
}

/// Reading the name of a kind gives the kind back, and so does reading the
/// name written in capitals.
pub proof fn lemma_path_type_from_name(t: PathType)
    ensures
        path_type_of_text(path_type_name(t)) == t,
        path_type_of_text(ascii_upper(path_type_name(t))) == t,
{
    lemma_type_names(t);
    lemma_path_type_name_roundtrip(t, path_type_name(t));
    let n = path_type_name(t);
    let u = ascii_upper(n);
    assert(all_ascii(u)) by {
        assert forall|i: int| 0 <= i < u.len() implies (u[i] as u32) < 128 by {
            assert((n[i] as u32) < 128);
        }
    }
    assert(ascii_lower(u) =~= ascii_lower(n)) by {
        assert forall|i: int| 0 <= i < u.len() implies ascii_lower(u)[i] == ascii_lower(n)[i] by {
            assert((n[i] as u32) < 128);
        }
    }
    lemma_path_type_name_roundtrip(t, u);
}

/// The name of every kind is ASCII, already in small letters, and names that
/// kind.
proof fn lemma_type_names(t: PathType)
    ensures
        all_ascii(path_type_name(t)),
        ascii_lower(path_type_name(t)) == path_type_name(t),
        path_type_named(path_type_name(t)) == t,
{
    reveal_strlit("file");
    reveal_strlit("symlink");
    reveal_strlit("setuid");
    reveal_strlit("directory");
    reveal_strlit("none");
    let n = path_type_name(t);
    assert(ascii_lower(n) =~= n);
    let (f, l, u, d, o) = ("file"@, "symlink"@, "setuid"@, "directory"@, "none"@);
    assert(f.len() == 4 && l.len() == 7 && u.len() == 6 && d.len() == 9 && o.len() == 4);
    assert(o[0] == 'n' && f[0] == 'f' && l[1] == 'y' && u[1] == 'e');
    assert(o != f && o != l && o != u && o != d);
    assert(d != f && d != l && d != u);
    assert(u != f && u != l);
    assert(l != f);
}

/// Any ASCII spelling of a kind's name, small or capital letters, names
/// that kind.
pub proof fn lemma_path_type_name_roundtrip(t: PathType, s: Seq<char>)
    requires
        all_ascii(s),
        ascii_lower(s) == path_type_name(t),
    ensures
        path_type_named(ascii_lower(s)) == t,
        path_type_of_text(s) == t,
{
    lemma_type_names(t);
}

impl vstd::std_specs::convert::FromSpecImpl<&str> for PathType {
    open spec fn obeys_from_spec() -> bool {
        true
    }

    open spec fn from_spec(v: &str) -> PathType {
        path_type_of_text(v@)
    }
}

impl From<&str> for PathType {
    fn from(p: &str) -> (r: PathType) {
        PathType::from_name(p)
    }
}

} // verus!
