//! String utilities for paths: trailing and duplicate separators, the
//! anchored replacements (regular expressions of the `regex` crate), and the
//! relative "../" prefixes that climb out of a subpath.
use vstd::prelude::*;

use crate::text::{chars_of, has_prefix, owned, push_char, string_of, vec_eq, vec_starts_with};

verus! {

/// `s` without its trailing run of `/` (the effect of replacing `/+$` by nothing).
pub open spec fn trim_trailing_slashes(s: Seq<char>) -> Seq<char>
    decreases s.len(),
{
    if s.len() > 0 && s.last() == '/' {
        trim_trailing_slashes(s.drop_last())
    } else {
        s
    }
}

/// `s` with every run of `/` collapsed into one `/` (the effect of replacing `[/]+` by `/`).
pub open spec fn collapse_separators(s: Seq<char>) -> Seq<char>
    decreases s.len(),
{
    if s.len() == 0 {
        s
    } else if s.len() >= 2 && s[0] == '/' && s[1] == '/' {
        collapse_separators(s.drop_first())
    } else {
        seq![s[0]] + collapse_separators(s.drop_first())
    }
}

/// `s` without trailing separators, followed by exactly one separator.
pub open spec fn with_trailing_separator(s: Seq<char>) -> Seq<char> {
    trim_trailing_slashes(s).push('/')
}

/// How many times `c` occurs in `s`.
pub open spec fn count_char(s: Seq<char>, c: char) -> nat
    decreases s.len(),
{
    if s.len() == 0 {
        0
    } else {
        count_char(s.drop_last(), c) + if s.last() == c { 1nat } else { 0nat }
    }
}

/// `s` repeated `n` times.
pub open spec fn repeat(s: Seq<char>, n: nat) -> Seq<char>
    decreases n,
{
    if n == 0 {
        Seq::empty()
    } else {
        repeat(s, (n - 1) as nat) + s
    }
}

/// The number of components of `haystack` once trailing separators are removed:
/// one more than the separators left in it.
pub open spec fn subpath_depth(haystack: Seq<char>) -> nat {
    count_char(trim_trailing_slashes(haystack), '/') + 1
}

/// The result of `regex::Regex::new(pattern)` followed by `replace_all(haystack,
/// replacement)`: `None` where the pattern does not compile.
pub uninterp spec fn regex_replace_all(
    pattern: Seq<char>,
    haystack: Seq<char>,
    replacement: Seq<char>,
) -> Option<Seq<char>>;

/// `pattern` anchored at the start of the haystack.
pub open spec fn anchored_start(pattern: Seq<char>) -> Seq<char> {
    seq!['^'] + pattern
}

/// `pattern` anchored at the end of the haystack.
pub open spec fn anchored_end(pattern: Seq<char>) -> Seq<char> {
    pattern.push('$')
}

/// The result of replacing a match of `pattern` at the start of `haystack`.
pub open spec fn replaced_at_start(
    pattern: Seq<char>,
    haystack: Seq<char>,
    repl: Seq<char>,
) -> Option<Seq<char>> {
    regex_replace_all(anchored_start(pattern), haystack, repl)
}

/// The result of replacing a match of `pattern` at the end of `haystack`.
pub open spec fn replaced_at_end(
    pattern: Seq<char>,
    haystack: Seq<char>,
    repl: Seq<char>,
) -> Option<Seq<char>> {
    regex_replace_all(anchored_end(pattern), haystack, repl)
}

/// The result of removing `pattern` followed by a separator from the start of `haystack`.
pub open spec fn removed_at_start(pattern: Seq<char>, haystack: Seq<char>) -> Option<Seq<char>> {
    replaced_at_start(with_trailing_separator(pattern), haystack, Seq::empty())
}

/// Compiles `pattern` with `regex::Regex::new` and, when it compiles, returns
/// `replace_all(haystack, replacement)` of the compiled expression (capture
/// references in `replacement` are expanded by the crate).  The contract names
/// the result; it also states that the pattern `^~` compiles.
#[verifier::external_body]
fn regex_replace(pattern: &str, haystack: &str, replacement: &str) -> (r: Option<String>)
    ensures
        match r {
            Some(s) => regex_replace_all(pattern@, haystack@, replacement@) == Some(s@),
            None => regex_replace_all(pattern@, haystack@, replacement@) is None,
        },
        pattern@ == seq!['^', '~'] ==> r is Some,
{
    match regex::Regex::new(pattern) {
        Ok(re) => Some(re.replace_all(haystack, replacement).to_string()),
        Err(_) => None,
    }
}

/// Removes every `/` at the end of `haystack`.
pub fn remove_trailing_slash(haystack: &str) -> (r: String)
    ensures
        r@ == trim_trailing_slashes(haystack@),
{
    let v = chars_of(haystack);
    let mut end = v.len();
    assert(v@.subrange(0, end as int) =~= v@);
    while end > 0 && v[end - 1] == '/'
        invariant
            end <= v@.len(),
            trim_trailing_slashes(v@) == trim_trailing_slashes(v@.subrange(0, end as int)),
        decreases end,
    {
        assert(v@.subrange(0, end as int).drop_last() =~= v@.subrange(0, end - 1));
        end = end - 1;
    }
    assert(v@.subrange(0, v@.len() as int) =~= v@);
    string_of(&v, 0, end)
}

/// Collapses every run of separators in `p` into one separator.
pub fn remove_duplicate_separators(p: &str) -> (r: String)
    ensures
        r@ == collapse_separators(p@),
{
    let v = chars_of(p);
    let mut out = String::new();
    let mut i: usize = 0;
    assert(v@.skip(0) =~= v@);
    while i < v.len()
        invariant
            i <= v@.len(),
            out@ + collapse_separators(v@.skip(i as int)) == collapse_separators(v@),
        decreases v.len() - i,
    {
        let ghost rest = v@.skip(i as int);
        let ghost before = out@;
        assert(rest.drop_first() =~= v@.skip(i + 1));
        if v[i] == '/' && i + 1 < v.len() && v[i + 1] == '/' {
            assert(collapse_separators(rest) == collapse_separators(v@.skip(i + 1)));
        } else {
            push_char(&mut out, v[i]);
            assert(collapse_separators(rest) == seq![v@[i as int]] + collapse_separators(v@.skip(i + 1)));
            assert(out@ + collapse_separators(v@.skip(i + 1)) =~= before + collapse_separators(rest));
        }
        i = i + 1;
    }
    assert(v@.skip(v@.len() as int) =~= Seq::<char>::empty());
    assert(out@ + collapse_separators(Seq::<char>::empty()) =~= out@);
    out
}

/// Returns `path` without trailing separators, followed by one separator.
pub fn add_trailing_separator(path: &str) -> (r: String)
    ensures
        r@ == with_trailing_separator(path@),
{
    let mut r = remove_trailing_slash(path);
    push_char(&mut r, '/');
    r
}

/// Builds `^` followed by `pattern`.
fn start_pattern(pattern: &str) -> (r: String)
    ensures
        r@ == anchored_start(pattern@),
{
    let mut r = String::new();
    push_char(&mut r, '^');
    r.append(pattern);
    assert(r@ =~= anchored_start(pattern@));
    r
}

/// Builds `pattern` followed by `$`.
fn end_pattern(pattern: &str) -> (r: String)
    ensures
        r@ == anchored_end(pattern@),
{
    let mut r = owned(pattern);
    push_char(&mut r, '$');
    r
}

/// Replaces the match of the regular expression `pattern` anchored at the
/// start of `haystack` by `repl`.
pub fn repl_beg(pattern: &str, haystack: &str, repl: &str) -> (r: String)
    requires
        replaced_at_start(pattern@, haystack@, repl@) is Some,
    ensures
        Some(r@) == replaced_at_start(pattern@, haystack@, repl@),
{
    let p = start_pattern(pattern);
    match regex_replace(p.as_str(), haystack, repl) {
        Some(s) => s,
        None => {
            assert(false);
            String::new()
        },
    }
}

/// Like `repl_beg`, but answers `None` where `pattern` does not compile.
pub fn checked_repl_beg(pattern: &str, haystack: &str, repl: &str) -> (r: Option<String>)
    ensures
        match r {
            Some(s) => Some(s@) == replaced_at_start(pattern@, haystack@, repl@),
            None => replaced_at_start(pattern@, haystack@, repl@) is None,
        },
{
    let p = start_pattern(pattern);
    match regex_replace(p.as_str(), haystack, repl) {
        Some(_) => Some(repl_beg(pattern, haystack, repl)),
        None => None,
    }
}

/// Replaces the match of the regular expression `pattern` anchored at the
/// end of `haystack` by `repl`.
pub fn repl_end(pattern: &str, haystack: &str, repl: &str) -> (r: String)
    requires
        replaced_at_end(pattern@, haystack@, repl@) is Some,
    ensures
        Some(r@) == replaced_at_end(pattern@, haystack@, repl@),
{
    let p = end_pattern(pattern);
    match regex_replace(p.as_str(), haystack, repl) {
        Some(s) => s,
        None => {
            assert(false);
            String::new()
        },
    }
}

/// Like `repl_end`, but answers `None` where `pattern` does not compile.
pub fn checked_repl_end(pattern: &str, haystack: &str, repl: &str) -> (r: Option<String>)
    ensures
        match r {
            Some(s) => Some(s@) == replaced_at_end(pattern@, haystack@, repl@),
            None => replaced_at_end(pattern@, haystack@, repl@) is None,
        },
{
    let p = end_pattern(pattern);
    match regex_replace(p.as_str(), haystack, repl) {
        Some(_) => Some(repl_end(pattern, haystack, repl)),
        None => None,
    }
}

/// Removes the match of the regular expression `pattern` at the end of `haystack`.
pub fn remove_end(pattern: &str, haystack: &str) -> (r: String)
    requires
        replaced_at_end(pattern@, haystack@, Seq::empty()) is Some,
    ensures
        Some(r@) == replaced_at_end(pattern@, haystack@, Seq::empty()),
{
    let empty = String::new();
    proof {
        assert(empty@ =~= Seq::<char>::empty());
    }
    repl_end(pattern, haystack, empty.as_str())
}

/// Removes `pattern` followed by a separator (as a regular expression) from
/// the start of `haystack`.
pub fn remove_start(pattern: &str, haystack: &str) -> (r: String)
    requires
        removed_at_start(pattern@, haystack@) is Some,
    ensures
        Some(r@) == removed_at_start(pattern@, haystack@),
{
    let p = add_trailing_separator(pattern);
    let empty = String::new();
    proof {
        assert(empty@ =~= Seq::<char>::empty());
    }
    repl_beg(p.as_str(), haystack, empty.as_str())
}

/// Like `remove_start`, but answers `None` where the pattern does not compile.
pub fn checked_remove_start(pattern: &str, haystack: &str) -> (r: Option<String>)
    ensures
        match r {
            Some(s) => Some(s@) == removed_at_start(pattern@, haystack@),
            None => removed_at_start(pattern@, haystack@) is None,
        },
{
    let p = add_trailing_separator(pattern);
    let empty = String::new();
    proof {
        assert(empty@ =~= Seq::<char>::empty());
    }
    match checked_repl_beg(p.as_str(), haystack, empty.as_str()) {
        Some(_) => Some(remove_start(pattern, haystack)),
        None => None,
    }
}

/// Replaces a `~` at the start of `haystack` by `expansion` (capture
/// references in `expansion` are expanded by the `regex` crate).
pub fn expand_home_regex(haystack: &str, expansion: &str) -> (r: String)
    ensures
        Some(r@) == regex_replace_all(seq!['^', '~'], haystack@, expansion@),
{
    let mut p = String::new();
    push_char(&mut p, '^');
    push_char(&mut p, '~');
    assert(p@ =~= seq!['^', '~']);
    match regex_replace(p.as_str(), haystack, expansion) {
        Some(s) => s,
        None => {
            assert(false);
            String::new()
        },
    }
}

proof fn lemma_count_char_le(s: Seq<char>, c: char)
    ensures
        count_char(s, c) <= s.len(),
    decreases s.len(),
{
    if s.len() > 0 {
        lemma_count_char_le(s.drop_last(), c);
    }
}

proof fn lemma_trim_no_trailing(s: Seq<char>)
    ensures
        trim_trailing_slashes(s).len() <= s.len(),
        trim_trailing_slashes(s).len() > 0 ==> trim_trailing_slashes(s).last() != '/',
    decreases s.len(),
{
    if s.len() > 0 && s.last() == '/' {
        lemma_trim_no_trailing(s.drop_last());
    }
}

/// Counts the components of `haystack` once trailing separators are removed.
fn subpath_components(haystack: &str) -> (n: usize)
    ensures
        n == subpath_depth(haystack@),
{
    let t = remove_trailing_slash(haystack);
    let v = chars_of(t.as_str());
    let mut count: usize = 0;
    let mut i: usize = 0;
    while i < v.len()
        invariant
            i <= v@.len(),
            count == count_char(v@.subrange(0, i as int), '/'),
            count <= i,
        decreases v.len() - i,
    {
        assert(v@.subrange(0, i + 1).drop_last() =~= v@.subrange(0, i as int));
        if v[i] == '/' {
            count = count + 1;
        }
        i = i + 1;
    }
    assert(v@.subrange(0, v@.len() as int) =~= v@);
    proof {
        lemma_trim_no_trailing(haystack@);
        if v@.len() > 0 {
            assert(v@.drop_last() =~= v@.subrange(0, v@.len() - 1));
            lemma_count_char_le(v@.drop_last(), '/');
        }
    }
    count + 1
}

/// One `..` for each component of `haystack` (trailing separators removed).
pub fn split_str_into_relative_subpath_parts(haystack: &str) -> (r: Vec<String>)
    ensures
        r@.len() == subpath_depth(haystack@),
        forall|i: int| 0 <= i < r@.len() ==> #[trigger] r@[i]@ == seq!['.', '.'],
{
    let n = subpath_components(haystack);
    let mut r: Vec<String> = Vec::new();
    let mut i: usize = 0;
    while i < n
        invariant
            i <= n,
            r@.len() == i,
            forall|j: int| 0 <= j < i ==> #[trigger] r@[j]@ == seq!['.', '.'],
        decreases n - i,
    {
        let mut dots = String::new();
        push_char(&mut dots, '.');
        push_char(&mut dots, '.');
        assert(dots@ =~= seq!['.', '.']);
        r.push(dots);
        i = i + 1;
    }
    r
}

/// A `../` for each component of `haystack` (trailing separators removed).
pub fn path_str_to_relative_subpath(haystack: &str) -> (r: String)
    ensures
        r@ == repeat(seq!['.', '.', '/'], subpath_depth(haystack@)),
{
    let n = subpath_components(haystack);
    let mut r = String::new();
    let mut i: usize = 0;
    assert(r@ =~= repeat(seq!['.', '.', '/'], 0));
    while i < n
        invariant
            i <= n,
            r@ == repeat(seq!['.', '.', '/'], i as nat),
        decreases n - i,
    {
        push_char(&mut r, '.');
        push_char(&mut r, '.');
        push_char(&mut r, '/');
        assert(r@ =~= repeat(seq!['.', '.', '/'], (i + 1) as nat));
        i = i + 1;
    }
    r
}

/// Removes `pattern` + `/` from the start of `haystack` when `haystack` starts
/// with `pattern`; otherwise the empty string.  `None` where the expression
/// does not compile.
pub open spec fn strip_when_prefixed(pattern: Seq<char>, haystack: Seq<char>) -> Option<Seq<char>> {
    if has_prefix(haystack, pattern) {
        removed_at_start(pattern, haystack)
    } else {
        Some(Seq::empty())
    }
}

/// The two ends that `remove_equal_prefix_from_path_strings` leaves of `path`
/// and `path2`; `None` where one of the regular expressions it builds does not
/// compile.
pub open spec fn equal_prefix_ends(path: Seq<char>, path2: Seq<char>) -> Option<(Seq<char>, Seq<char>)> {
    let p = trim_trailing_slashes(path);
    let p2 = trim_trailing_slashes(path2);
    let shared = if has_prefix(p, p2) { removed_at_start(p, p2) } else { removed_at_start(p2, p) };
    match shared {
        None => None,
        Some(shared) => {
            let tmp = trim_trailing_slashes(shared);
            match (strip_when_prefixed(tmp, p), strip_when_prefixed(tmp, p2)) {
                (Some(e1), Some(e2)) => {
                    let e1 = trim_trailing_slashes(e1);
                    let e2 = trim_trailing_slashes(e2);
                    Some((if e1 == p { Seq::empty() } else { e1 }, if e2 == p2 { Seq::empty() } else { e2 }))
                },
                _ => None,
            }
        },
    }
}

/// Empties `end` when it is still the whole `whole`.
fn unless_whole(end: String, whole: &Vec<char>) -> (r: String)
    ensures
        r@ == if end@ == whole@ { Seq::<char>::empty() } else { end@ },
{
    let e = chars_of(end.as_str());
    if vec_eq(&e, whole) {
        let r = String::new();
        assert(r@ =~= Seq::<char>::empty());
        r
    } else {
        end
    }
}

/// `strip_when_prefixed`, executed; `None` where the expression does not compile.
fn checked_strip_when_prefixed(pattern: &str, haystack: &str) -> (r: Option<String>)
    ensures
        match r {
            Some(s) => strip_when_prefixed(pattern@, haystack@) == Some(s@),
            None => strip_when_prefixed(pattern@, haystack@) is None,
        },
{
    let h = chars_of(haystack);
    let p = chars_of(pattern);
    if vec_starts_with(&h, &p) {
        checked_remove_start(pattern, haystack)
    } else {
        let r = String::new();
        assert(r@ =~= Seq::<char>::empty());
        Some(r)
    }
}

/// Computes `equal_prefix_ends`; `None` where an expression does not compile.
fn equal_prefix_ends_exec(path: &str, path2: &str) -> (r: Option<(String, String)>)
    ensures
        match r {
            Some((a, b)) => equal_prefix_ends(path@, path2@) == Some((a@, b@)),
            None => equal_prefix_ends(path@, path2@) is None,
        },
{
    let p = remove_trailing_slash(path);
    let p2 = remove_trailing_slash(path2);
    let pv = chars_of(p.as_str());
    let p2v = chars_of(p2.as_str());
    let shared = if vec_starts_with(&pv, &p2v) {
        checked_remove_start(p.as_str(), p2.as_str())
    } else {
        checked_remove_start(p2.as_str(), p.as_str())
    };
    let shared = match shared {
        Some(s) => s,
        None => return None,
    };
    let tmp = remove_trailing_slash(shared.as_str());
    let e1 = match checked_strip_when_prefixed(tmp.as_str(), p.as_str()) {
        Some(e) => e,
        None => return None,
    };
    let e2 = match checked_strip_when_prefixed(tmp.as_str(), p2.as_str()) {
        Some(e) => e,
        None => return None,
    };
    let e1 = remove_trailing_slash(e1.as_str());
    let e2 = remove_trailing_slash(e2.as_str());
    let a = unless_whole(e1, &pv);
    let b = unless_whole(e2, &p2v);
    Some((a, b))
}

/// Splits off the part that `path` and `path2` share and returns what is left
/// of each (an end equal to its whole path is returned empty).
pub fn remove_equal_prefix_from_path_strings(path: &str, path2: &str) -> (r: (String, String))
    requires
        equal_prefix_ends(path@, path2@) is Some,
    ensures
        equal_prefix_ends(path@, path2@) == Some((r.0@, r.1@)),
{
    match equal_prefix_ends_exec(path, path2) {
        Some(r) => r,
        None => {
            assert(false);
            (String::new(), String::new())
        },
    }
}

/// Like `remove_equal_prefix_from_path_strings`, but answers `None` where one
/// of the regular expressions built from the paths does not compile.
pub fn checked_remove_equal_prefix_from_path_strings(path: &str, path2: &str) -> (r: Option<(String, String)>)
    ensures
        match r {
            Some((a, b)) => equal_prefix_ends(path@, path2@) == Some((a@, b@)),
            None => equal_prefix_ends(path@, path2@) is None,
        },
{
    match equal_prefix_ends_exec(path, path2) {
        Some(_) => Some(remove_equal_prefix_from_path_strings(path, path2)),
        None => None,
    }
}

/// Like `remove_end`, but answers `None` where `pattern` does not compile.
pub fn checked_remove_end(pattern: &str, haystack: &str) -> (r: Option<String>)
    ensures
        match r {
            Some(s) => Some(s@) == replaced_at_end(pattern@, haystack@, Seq::empty()),
            None => replaced_at_end(pattern@, haystack@, Seq::empty()) is None,
        },
{
    let empty = String::new();
    proof {
        assert(empty@ =~= Seq::<char>::empty());
    }
    match checked_repl_end(pattern, haystack, empty.as_str()) {
        Some(_) => Some(remove_end(pattern, haystack)),
        None => None,
    }
}

} // verus!

verus! {

/// Whether `s` has no two separators in a row.
pub open spec fn no_double_separator(s: Seq<char>) -> bool {
    forall|i: int| 0 <= i < s.len() - 1 ==> !(#[trigger] s[i] == '/' && s[i + 1] == '/')
}

/// Removing trailing separators twice removes no more than once.
pub proof fn lemma_trim_idempotent(s: Seq<char>)
    ensures
        trim_trailing_slashes(trim_trailing_slashes(s)) == trim_trailing_slashes(s),
    decreases s.len(),
{
    if s.len() > 0 && s.last() == '/' {
        lemma_trim_idempotent(s.drop_last());
    }
}

proof fn lemma_collapse_shape(s: Seq<char>)
    ensures
        no_double_separator(collapse_separators(s)),
        collapse_separators(s).len() <= s.len(),
        s.len() > 0 ==> collapse_separators(s).len() > 0 && collapse_separators(s)[0] == s[0],
    decreases s.len(),
{
    if s.len() > 0 {
        lemma_collapse_shape(s.drop_first());
        let r = collapse_separators(s.drop_first());
        if !(s.len() >= 2 && s[0] == '/' && s[1] == '/') {
            let t = seq![s[0]] + r;
            assert forall|i: int| 0 <= i < t.len() - 1 implies !(#[trigger] t[i] == '/' && t[i + 1] == '/') by {
                if i > 0 {
                    assert(t[i] == r[i - 1] && t[i + 1] == r[i]);
                } else if s.len() >= 2 {
                    assert(t[1] == r[0] && r[0] == s.drop_first()[0]);
                }
            }
        }
    }
}

proof fn lemma_collapse_fixed(s: Seq<char>)
    requires
        no_double_separator(s),
    ensures
        collapse_separators(s) == s,
    decreases s.len(),
{
    if s.len() > 0 {
        let t = s.drop_first();
        assert(no_double_separator(t)) by {
            assert forall|i: int| 0 <= i < t.len() - 1 implies !(#[trigger] t[i] == '/' && t[i + 1] == '/') by {
                assert(t[i] == s[i + 1] && t[i + 1] == s[i + 2]);
            }
        }
        lemma_collapse_fixed(t);
        if s.len() >= 2 {
            assert(!(s[0] == '/' && s[1] == '/'));
        }
        assert(seq![s[0]] + t =~= s);
    }
}

/// Collapsing runs of separators a second time changes nothing, and the
/// result has no two separators in a row.
pub proof fn lemma_collapse_idempotent(s: Seq<char>)
    ensures
        collapse_separators(collapse_separators(s)) == collapse_separators(s),
        no_double_separator(collapse_separators(s)),
{
    lemma_collapse_shape(s);
    lemma_collapse_fixed(collapse_separators(s));
}

/// A text without two separators in a row is left as it is by collapsing.
pub proof fn lemma_collapse_keeps_single_separators(s: Seq<char>)
    requires
        no_double_separator(s),
    ensures
        collapse_separators(s) == s,
{
    lemma_collapse_fixed(s);
}

/// Adding a trailing separator twice adds it once, and the result ends with
/// exactly one separator.
pub proof fn lemma_trailing_separator_idempotent(s: Seq<char>)
    ensures
        with_trailing_separator(with_trailing_separator(s)) == with_trailing_separator(s),
        with_trailing_separator(s).last() == '/',
        with_trailing_separator(s).len() < 2 || with_trailing_separator(s)[with_trailing_separator(s).len() - 2] != '/',
{
    let t = trim_trailing_slashes(s);
    lemma_trim_no_trailing(s);
    assert(trim_trailing_slashes(t.push('/')) == trim_trailing_slashes(t)) by {
        assert(t.push('/').drop_last() =~= t);
    }
    lemma_trim_idempotent(s);
}

} // verus!

verus! {

/// A text that starts with a separator still does once runs are collapsed.
pub proof fn lemma_collapse_prefix_slash(s: Seq<char>)
    requires
        has_prefix(s, seq!['/']),
    ensures
        has_prefix(collapse_separators(s), seq!['/']),
{
    assert(s.subrange(0, 1)[0] == s[0]);
    lemma_collapse_shape(s);
    let c = collapse_separators(s);
    assert(c.subrange(0, 1) =~= seq!['/']);
}

} // verus!
