//! The order of a directory listing: directories first, then deeper paths,
//! then longer texts, with ties kept in the order they came.
use vstd::prelude::*;

use crate::path::Path;
use crate::path_cmp::{byte_len, depth, depth_of, path_byte_len, path_depth};
use crate::path_sort::pairs;

verus! {

/// Where a directory stands among the listed entries: before the others.
pub open spec fn dir_rank(is_dir: bool) -> int {
    if is_dir { 0 } else { 1 }
}

/// Whether the entry `a` (a path's text and whether it is a directory) is
/// listed strictly before `b`: directories first, then deeper paths, then
/// longer texts (in bytes).
pub open spec fn listed_before(a: (Seq<char>, bool), b: (Seq<char>, bool)) -> bool {
    ||| dir_rank(a.1) < dir_rank(b.1)
    ||| dir_rank(a.1) == dir_rank(b.1) && depth_of(a.0) > depth_of(b.0)
    ||| dir_rank(a.1) == dir_rank(b.1) && depth_of(a.0) == depth_of(b.0) && byte_len(a.0) > byte_len(b.0)
}

/// Whether two entries tie in the listing order.
pub open spec fn ties(a: (Seq<char>, bool), b: (Seq<char>, bool)) -> bool {
    a.1 == b.1 && depth_of(a.0) == depth_of(b.0) && byte_len(a.0) == byte_len(b.0)
}

/// Whether no entry is listed strictly before one that precedes it.
pub open spec fn listed_in_order(s: Seq<(Seq<char>, bool)>) -> bool {
    forall|i: int, j: int| 0 <= i < j < s.len() ==> !listed_before(#[trigger] s[j], #[trigger] s[i])
}

/// The entries of `s` that tie with `e`, in their order in `s`.
pub open spec fn ties_of(s: Seq<(Seq<char>, bool)>, e: (Seq<char>, bool)) -> Seq<(Seq<char>, bool)> {
    s.filter(|x: (Seq<char>, bool)| ties(x, e))
}

proof fn lemma_ties_of_none(s: Seq<(Seq<char>, bool)>, e: (Seq<char>, bool))
    requires
        forall|j: int| 0 <= j < s.len() ==> !ties(#[trigger] s[j], e),
    ensures
        ties_of(s, e) == Seq::<(Seq<char>, bool)>::empty(),
    decreases s.len(),
{
    reveal(Seq::filter);
    if s.len() > 0 {
        lemma_ties_of_none(s.drop_last(), e);
        assert(s[s.len() - 1] == s.last());
    }
}

proof fn lemma_insert_listed(s: Seq<(Seq<char>, bool)>, k: int, x: (Seq<char>, bool))
    requires
        listed_in_order(s),
        0 <= k <= s.len(),
        forall|j: int| 0 <= j < k ==> !listed_before(x, #[trigger] s[j]),
        k < s.len() ==> listed_before(x, s[k]),
    ensures
        listed_in_order(s.insert(k, x)),
        forall|j: int| k <= j < s.len() ==> listed_before(x, #[trigger] s[j]),
        forall|e: (Seq<char>, bool)| #[trigger] ties_of(s.insert(k, x), e) == if ties(x, e) {
            ties_of(s, e).push(x)
        } else {
            ties_of(s, e)
        },
{
    assert forall|j: int| k <= j < s.len() implies listed_before(x, #[trigger] s[j]) by {
        if j > k {
            assert(!listed_before(s[j], s[k]));
        }
    }
    let t = s.insert(k, x);
    assert forall|i: int, j: int| 0 <= i < j < t.len() implies !listed_before(#[trigger] t[j], #[trigger] t[i]) by {
        if j < k {
            assert(t[i] == s[i] && t[j] == s[j]);
        } else if j == k {
            assert(t[i] == s[i]);
        } else if i < k {
            assert(t[i] == s[i] && t[j] == s[j - 1]);
        } else if i == k {
            assert(t[j] == s[j - 1]);
            assert(listed_before(x, s[j - 1]));
        } else {
            assert(t[i] == s[i - 1] && t[j] == s[j - 1]);
        }
    }
    assert forall|e: (Seq<char>, bool)| #[trigger] ties_of(s.insert(k, x), e) == if ties(x, e) {
        ties_of(s, e).push(x)
    } else {
        ties_of(s, e)
    } by {
        let pred = |y: (Seq<char>, bool)| ties(y, e);
        let a = s.take(k);
        let b = s.skip(k);
        assert(s =~= a + b);
        assert(t =~= a.push(x) + b);
        Seq::filter_distributes_over_add(a, b, pred);
        Seq::filter_distributes_over_add(a.push(x), b, pred);
        a.lemma_filter_push(x, pred);
        if ties(x, e) {
            assert forall|j: int| 0 <= j < b.len() implies !ties(#[trigger] b[j], e) by {
                assert(b[j] == s[k + j]);
                assert(listed_before(x, s[k + j]));
            }
            lemma_ties_of_none(b, e);
            assert(a.filter(pred) + b.filter(pred) =~= a.filter(pred));
            assert(a.filter(pred).push(x) + b.filter(pred) =~= a.filter(pred).push(x));
        }
    }
}

/// Sorts paths (each with whether it is a directory) for a listing:
/// directories first, then deeper paths, then longer texts; entries that tie
/// keep their order.  Paths and flags move together.
pub fn sort_paths(paths: &mut Vec<Path>, is_dir: &mut Vec<bool>)
    requires
        old(paths)@.len() == old(is_dir)@.len(),
    ensures
        final(paths)@.len() == old(paths)@.len(),
        final(is_dir)@.len() == old(is_dir)@.len(),
        pairs(final(paths)@, final(is_dir)@).to_multiset() == pairs(old(paths)@, old(is_dir)@).to_multiset(),
        listed_in_order(pairs(final(paths)@, final(is_dir)@)),
        forall|e: (Seq<char>, bool)| #[trigger] ties_of(pairs(final(paths)@, final(is_dir)@), e)
            == ties_of(pairs(old(paths)@, old(is_dir)@), e),
{
    let n = paths.len();
    let mut res: Vec<Path> = Vec::new();
    let mut rd: Vec<bool> = Vec::new();
    let mut i: usize = 0;
    assert(pairs(res@, rd@) =~= pairs(paths@.take(0), is_dir@.take(0)));
    proof {
        reveal(Seq::filter);
    }
    while i < n
        invariant
            n == paths@.len(),
            n == is_dir@.len(),
            paths@ == old(paths)@,
            is_dir@ == old(is_dir)@,
            i <= n,
            res@.len() == i,
            rd@.len() == i,
            pairs(res@, rd@).to_multiset() == pairs(paths@.take(i as int), is_dir@.take(i as int)).to_multiset(),
            listed_in_order(pairs(res@, rd@)),
            forall|e: (Seq<char>, bool)| #[trigger] ties_of(pairs(res@, rd@), e)
                == ties_of(pairs(paths@.take(i as int), is_dir@.take(i as int)), e),
        decreases n - i,
    {
        let x = paths[i].clone();
        let dx = is_dir[i];
        let xd = path_depth(&x);
        let xl = path_byte_len(&x);
        let ghost xe = (x@, dx);
        let ghost before = pairs(res@, rd@);
        let mut k: usize = 0;
        loop
            invariant
                k <= res@.len(),
                res@.len() == rd@.len(),
                before == pairs(res@, rd@),
                xe == (x@, dx),
                xd == depth(x@),
                xl == byte_len(x@),
                forall|j: int| 0 <= j < k ==> !listed_before(xe, #[trigger] before[j]),
            ensures
                k <= res@.len(),
                forall|j: int| 0 <= j < k ==> !listed_before(xe, #[trigger] before[j]),
                k < res@.len() ==> listed_before(xe, before[k as int]),
            decreases res.len() - k,
        {
            if k >= res.len() {
                break;
            }
            let yd = path_depth(&res[k]);
            let yl = path_byte_len(&res[k]);
            let dy = rd[k];
            let goes_before = (dx && !dy) || (dx == dy && (xd > yd || (xd == yd && xl > yl)));
            assert(before[k as int] == (res@[k as int]@, rd@[k as int]));
            if goes_before {
                break;
            }
            k = k + 1;
        }
        proof {
            lemma_insert_listed(before, k as int, xe);
        }
        res.insert(k, x);
        rd.insert(k, dx);
        proof {
            assert(pairs(res@, rd@) =~= before.insert(k as int, xe));
            vstd::seq_lib::to_multiset_insert(before, k as int, xe);
            assert(pairs(paths@.take(i + 1), is_dir@.take(i + 1)) =~= pairs(
                paths@.take(i as int),
                is_dir@.take(i as int),
            ).push(xe));
            vstd::seq_lib::to_multiset_build(
                pairs(paths@.take(i as int), is_dir@.take(i as int)),
                xe,
            );
            assert forall|e: (Seq<char>, bool)| #[trigger] ties_of(pairs(res@, rd@), e)
                == ties_of(pairs(paths@.take(i + 1), is_dir@.take(i + 1)), e) by {
                pairs(paths@.take(i as int), is_dir@.take(i as int)).lemma_filter_push(
                    xe,
                    |y: (Seq<char>, bool)| ties(y, e),
                );
            }
        }
        i = i + 1;
    }
    assert(paths@.take(n as int) =~= paths@);
    assert(is_dir@.take(n as int) =~= is_dir@);
    *paths = res;
    *is_dir = rd;
}

} // verus!
