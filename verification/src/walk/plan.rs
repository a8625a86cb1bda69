//! The decisions of a directory walk: whether a directory can be walked at
//! its depth, what becomes of each answer of the walk's handler, and the set
//! of paths found.  Listing directories and asking the handler is the
//! caller's part.
use vstd::prelude::*;

use crate::errors::{Error, debug_quoted, debug_text, error_text};
use crate::path::Path;
use crate::path_sort::{neighbours_in_order, pairs, sort_by_path_order, sorted_texts, path_views, uniform};
use crate::text::{chars_of, vec_eq};

verus! {

/// The message of a walk that cannot start at `path`.
pub open spec fn walk_refusal(path: Seq<char>, present: bool) -> Seq<char> {
    debug_quoted(path) + if present { " is not a directory"@ } else { " does not exist"@ }
}

/// The level a walk below `depth` works at (one at the top).
pub open spec fn walk_level(depth: Option<usize>) -> int {
    match depth {
        Some(d) => d + 1,
        None => 1,
    }
}

/// Whether a walk at depth `depth` (none at the top) goes on below `max_depth`
/// (no limit when none).
pub open spec fn within_depth(depth: Option<usize>, max_depth: Option<usize>) -> bool {
    match depth {
        Some(d) => d < match max_depth { Some(m) => m, None => usize::MAX },
        None => true,
    }
}

/// Starts walking the directory `path`, whose existence and kind the caller
/// read, one level below `depth` (the top when none): a walk error where it
/// is missing or not a directory; `None` where the new level is past
/// `max_depth` (nothing is found there); otherwise the new level.
pub fn walk_start(path: &Path, present: bool, is_dir: bool, depth: Option<usize>, max_depth: Option<usize>) -> (r: Result<Option<usize>, Error>)
    requires
        depth matches Some(d) ==> d < usize::MAX,
    ensures
        !present ==> (r matches Err(Error::WalkDirError(m, p, d)) && m@ == walk_refusal(path@, false)
            && p@ == path@ && d == walk_level(depth)),
        present && !is_dir ==> (r matches Err(Error::WalkDirError(m, p, d)) && m@ == walk_refusal(path@, true)
            && p@ == path@ && d == walk_level(depth)),
        present && is_dir ==> ({
            let level = walk_level(depth);
            let limit = match max_depth { Some(m) => m as int, None => usize::MAX as int };
            if level > limit { r == Ok::<Option<usize>, Error>(None) } else { r == Ok::<Option<usize>, Error>(Some(level as usize)) }
        }),
{
    let level: usize = match depth {
        Some(d) => d + 1,
        None => 1,
    };
    if !present || !is_dir {
        let mut m = debug_text(path.as_str());
        if present {
            m.append(" is not a directory");
        } else {
            m.append(" does not exist");
        }
        return Err(Error::WalkDirError(m, path.clone(), level));
    }
    let limit = match max_depth {
        Some(m) => m,
        None => usize::MAX,
    };
    if level > limit {
        Ok(None)
    } else {
        Ok(Some(level))
    }
}

/// Whether a walk at `depth` descends into the directories it found.
pub fn descends(depth: Option<usize>, max_depth: Option<usize>) -> (r: bool)
    ensures
        r == within_depth(depth, max_depth),
{
    match depth {
        Some(d) => d < match max_depth {
            Some(m) => m,
            None => usize::MAX,
        },
        None => true,
    }
}

/// What an answer of the walk's handler about `path`, asked at walk level
/// `depth`, comes to: `Some` answer stands; for a failed answer (`None`),
/// what the handler made of the failure (`handled`) decides: the walk stops
/// with it as a walk error at `path` and `depth`, or goes on as if the answer
/// were no.
pub fn take_answer(answer: Option<bool>, handled: Option<Error>, path: &Path, depth: usize) -> (r: Result<bool, Error>)
    ensures
        answer matches Some(b) ==> r == Ok::<bool, Error>(b),
        answer is None && handled is None ==> r == Ok::<bool, Error>(false),
        answer is None ==> (handled matches Some(e) ==> (r matches Err(Error::WalkDirError(m, p, d))
            && m@ == error_text(e) && p@ == path@ && d == depth)),
{
    match answer {
        Some(b) => Ok(b),
        None => match handled {
            Some(e) => Err(Error::WalkDirError(e.to_string(), path.clone(), depth)),
            None => Ok(false),
        },
    }
}

/// The paths a walk found, each once.
pub struct Found {
    paths: Vec<Path>,
}

impl View for Found {
    type V = Seq<Seq<char>>;

    closed spec fn view(&self) -> Seq<Seq<char>> {
        path_views(self.paths@)
    }
}

/// Whether no text occurs twice.
pub open spec fn distinct(s: Seq<Seq<char>>) -> bool {
    forall|i: int, j: int| 0 <= i < j < s.len() ==> s[i] != s[j]
}

impl Found {
    /// Each path is found once.
    #[verifier::type_invariant]
    spec fn each_once(self) -> bool {
        distinct(path_views(self.paths@))
    }

    /// Nothing found yet.
    pub fn new() -> (r: Found)
        ensures
            r@.len() == 0,
    {
        let r = Found { paths: Vec::new() };
        assert(path_views(r.paths@) =~= Seq::<Seq<char>>::empty());
        r
    }

    /// The paths found, in the order they were found.
    pub fn paths(&self) -> (r: &Vec<Path>)
        ensures
            path_views(r@) == self@,
    {
        &self.paths
    }

    /// The number of paths found.
    pub fn len(&self) -> (r: usize)
        ensures
            r == self@.len(),
    {
        self.paths.len()
    }

    /// Adds `p` unless it was found already; returns whether it was new.
    pub fn insert(&mut self, p: Path) -> (r: bool)
        ensures
            r == !old(self)@.contains(p@),
            r ==> final(self)@ == old(self)@.push(p@),
            !r ==> final(self)@ == old(self)@,
            distinct(final(self)@),
    {
        proof {
            use_type_invariant(&*self);
        }
        let t = chars_of(p.as_str());
        let mut i: usize = 0;
        while i < self.paths.len()
            invariant
                i <= self.paths@.len(),
                t@ == p@,
                distinct(path_views(self.paths@)),
                forall|j: int| 0 <= j < i ==> path_views(self.paths@)[j] != p@,
            decreases self.paths.len() - i,
        {
            let u = chars_of(self.paths[i].as_str());
            if vec_eq(&u, &t) {
                assert(path_views(self.paths@)[i as int] == p@);
                return false;
            }
            i = i + 1;
        }
        let ghost before = path_views(self.paths@);
        let mut paths = Vec::new();
        std::mem::swap(&mut paths, &mut self.paths);
        paths.push(p);
        assert(path_views(paths@) =~= before.push(p@));
        self.paths = paths;
        true
    }

    /// The paths found with whether each is a directory (`is_dir`, in the
    /// order the paths were found), in the order of `sort_by_path_order`.
    pub fn into_sorted(self, is_dir: &Vec<bool>) -> (r: (Vec<Path>, Vec<bool>))
        requires
            is_dir@.len() == self@.len(),
        ensures
            texts_with(path_views(r.0@), r.1@).to_multiset() == texts_with(self@, is_dir@).to_multiset(),
            neighbours_in_order(texts_with(path_views(r.0@), r.1@)),
            uniform(is_dir@) ==> sorted_texts(path_views(r.0@)),
    {
        let ghost found = self@;
        let mut paths = self.paths;
        let mut dirs: Vec<bool> = Vec::new();
        let mut i: usize = 0;
        while i < is_dir.len()
            invariant
                i <= is_dir@.len(),
                dirs@ == is_dir@.take(i as int),
            decreases is_dir.len() - i,
        {
            dirs.push(is_dir[i]);
            assert(dirs@ =~= is_dir@.take(i + 1));
            i = i + 1;
        }
        assert(dirs@ =~= is_dir@);
        assert(pairs(paths@, dirs@) =~= texts_with(found, is_dir@));
        sort_by_path_order(&mut paths, &mut dirs);
        assert(pairs(paths@, dirs@) =~= texts_with(path_views(paths@), dirs@));
        (paths, dirs)
    }
}

/// Texts paired with flags, position by position.
pub open spec fn texts_with(p: Seq<Seq<char>>, d: Seq<bool>) -> Seq<(Seq<char>, bool)> {
    Seq::new(p.len(), |i: int| (p[i], d[i]))
}

/// A walk at the top always descends; below it, a walk at depth `d`
/// descends exactly while `d` is under the maximum depth, and with no maximum
/// it descends at every depth below `usize::MAX`.
pub proof fn lemma_descends_depth_limit(d: usize, m: usize)
    ensures
        within_depth(None, Some(m)),
        within_depth(None, None),
        within_depth(Some(d), Some(m)) <==> d < m,
        within_depth(Some(d), None) <==> d < usize::MAX,
{
}

} // verus!
