//! Splitting a command line into its arguments.
use vstd::prelude::*;

use crate::text::owned;

verus! {

/// The pieces of `haystack` between the matches of `pattern`
/// (`Regex::split`); `None` where the pattern does not compile.
pub uninterp spec fn regex_split(pattern: Seq<char>, haystack: Seq<char>) -> Option<Seq<Seq<char>>>;

/// The expression of the white space that separates arguments.
pub const WHITESPACE: &'static str = r"\s+";

/// Compiles `pattern` with `regex::Regex::new` and, when it compiles, returns
/// the pieces of `haystack` between its matches (`Regex::split`).  The
/// contract names the result and states that `WHITESPACE` compiles.
#[verifier::external_body]
fn split_by(pattern: &str, haystack: &str) -> (r: Option<Vec<String>>)
    ensures
        match r {
            Some(v) => regex_split(pattern@, haystack@) == Some(v@.map_values(|s: String| s@)),
            None => regex_split(pattern@, haystack@) is None,
        },
        pattern@ == WHITESPACE@ ==> r is Some,
{
    let re = regex::Regex::new(pattern).ok()?;
    Some(re.split(haystack).map(|s| s.to_string()).collect())
}

/// The pieces of `s` that are not empty, in order.
pub open spec fn non_empty(s: Seq<Seq<char>>) -> Seq<Seq<char>>
    decreases s.len(),
{
    if s.len() == 0 {
        s
    } else if s.last().len() > 0 {
        non_empty(s.drop_last()).push(s.last())
    } else {
        non_empty(s.drop_last())
    }
}

/// The arguments of a command line: the pieces between runs of white space,
/// without the empty ones.
pub fn args_from_string(args: &str) -> (r: Vec<String>)
    ensures
        r@.map_values(|s: String| s@) == non_empty(regex_split(WHITESPACE@, args@)->0),
{
    let pieces = match split_by(WHITESPACE, args) {
        Some(p) => p,
        None => Vec::new(),
    };
    let ghost all = pieces@.map_values(|s: String| s@);
    let mut r: Vec<String> = Vec::new();
    let mut i: usize = 0;
    while i < pieces.len()
        invariant
            i <= pieces@.len(),
            all == pieces@.map_values(|s: String| s@),
            r@.map_values(|s: String| s@) == non_empty(all.take(i as int)),
        decreases pieces.len() - i,
    {
        assert(all.take(i + 1).drop_last() =~= all.take(i as int));
        assert(all.take(i + 1).last() == pieces@[i as int]@);
        if pieces[i].as_str().unicode_len() > 0 {
            let ghost before = r@;
            r.push(owned(pieces[i].as_str()));
            assert(r@.map_values(|s: String| s@) =~= before.map_values(|s: String| s@).push(pieces@[i as int]@));
        }
        i = i + 1;
    }
    assert(all.take(pieces@.len() as int) =~= all);
    r
}

} // verus!

verus! {

/// The arguments of a command: its text split at each space, each piece
/// trimmed of white space (empty pieces kept).
pub open spec fn command_parts(command: Seq<char>) -> Seq<Seq<char>> {
    crate::sys::split_on(command, ' ').map_values(|p: Seq<char>| crate::path::trimmed(p))
}

/// Splits a command into the program and its arguments, as the shell helpers
/// do before running it.
pub fn command_args(command: &str) -> (r: Vec<String>)
    ensures
        r@.map_values(|s: String| s@) == command_parts(command@),
        r@.len() >= 1,
{
    let pieces = crate::sys::split_fields(command, ' ');
    let ghost all = pieces@.map_values(|s: String| s@);
    proof {
        crate::sys::lemma_split_on_nonempty(command@, ' ');
    }
    let mut r: Vec<String> = Vec::new();
    let mut i: usize = 0;
    while i < pieces.len()
        invariant
            i <= pieces@.len(),
            all == pieces@.map_values(|s: String| s@),
            all == crate::sys::split_on(command@, ' '),
            r@.map_values(|s: String| s@) == all.take(i as int).map_values(|p: Seq<char>| crate::path::trimmed(p)),
        decreases pieces.len() - i,
    {
        let ghost before = r@;
        let t = crate::path::trim_text(pieces[i].as_str());
        assert(all[i as int] == pieces@[i as int]@);
        r.push(t);
        assert(r@ == before.push(r@.last()));
        assert(all.take(i + 1) =~= all.take(i as int).push(all[i as int]));
        assert(r@.map_values(|s: String| s@) =~= before.map_values(|s: String| s@).push(r@.last()@));
        assert(all.take(i + 1).map_values(|p: Seq<char>| crate::path::trimmed(p)) =~= all.take(i as int).map_values(|p: Seq<char>| crate::path::trimmed(p)).push(crate::path::trimmed(all[i as int])));
        assert(r@.map_values(|s: String| s@) =~= all.take(i + 1).map_values(|p: Seq<char>| crate::path::trimmed(p)));
        i = i + 1;
    }
    assert(all.take(pieces@.len() as int) =~= all);
    r
}

} // verus!
