//! Sorting paths in the order of `path_cmp`.
use vstd::prelude::*;

use crate::path::Path;
use crate::path_cmp::{
    comes_after, lemma_parts_order_uniform, lemma_path_after_asym, lemma_path_le_trans,
    lemma_sorts_after_asym, path_after, sorts_after,
};

verus! {

/// The texts of a sequence of paths.
pub open spec fn path_views(p: Seq<Path>) -> Seq<Seq<char>> {
    p.map_values(|x: Path| x@)
}

/// Each path's text together with whether it is a directory.
pub open spec fn pairs(p: Seq<Path>, d: Seq<bool>) -> Seq<(Seq<char>, bool)> {
    Seq::new(p.len(), |i: int| (p[i]@, d[i]))
}

/// Whether every flag is the same.
pub open spec fn uniform(d: Seq<bool>) -> bool {
    forall|i: int, j: int| 0 <= i < d.len() && 0 <= j < d.len() ==> d[i] == d[j]
}

/// Whether no text comes after a text that follows it.
pub open spec fn sorted_texts(s: Seq<Seq<char>>) -> bool {
    forall|i: int, j: int| 0 <= i < j < s.len() ==> !path_after(#[trigger] s[i], #[trigger] s[j])
}

/// Whether the path at `i` does not sort after the one right after it.
pub open spec fn in_order_at(s: Seq<(Seq<char>, bool)>, i: int) -> bool {
    !sorts_after(s[i].0, s[i].1, s[i + 1].0, s[i + 1].1)
}

/// Whether no path sorts after the one right after it.
pub open spec fn neighbours_in_order(s: Seq<(Seq<char>, bool)>) -> bool {
    forall|i: int| 0 <= i < s.len() - 1 ==> #[trigger] in_order_at(s, i)
}

proof fn lemma_insert_neighbours(s: Seq<(Seq<char>, bool)>, k: int, x: (Seq<char>, bool))
    requires
        neighbours_in_order(s),
        0 <= k <= s.len(),
        k > 0 ==> !sorts_after(s[k - 1].0, s[k - 1].1, x.0, x.1),
        k < s.len() ==> sorts_after(s[k].0, s[k].1, x.0, x.1),
    ensures
        neighbours_in_order(s.insert(k, x)),
{
    let t = s.insert(k, x);
    if k < s.len() {
        lemma_sorts_after_asym(s[k].0, s[k].1, x.0, x.1);
    }
    assert forall|i: int| 0 <= i < t.len() - 1 implies #[trigger] in_order_at(t, i) by {
        if i + 1 < k {
            assert(in_order_at(s, i));
        } else if i + 1 == k {
        } else if i == k {
        } else {
            assert(in_order_at(s, i - 1));
        }
    }
}

proof fn lemma_insert_sorted(s: Seq<Seq<char>>, k: int, x: Seq<char>)
    requires
        sorted_texts(s),
        0 <= k <= s.len(),
        forall|j: int| 0 <= j < k ==> !path_after(#[trigger] s[j], x),
        k < s.len() ==> path_after(s[k], x),
    ensures
        sorted_texts(s.insert(k, x)),
{
    let t = s.insert(k, x);
    if k < s.len() {
        lemma_path_after_asym(s[k], x);
    }
    assert forall|i: int, j: int| 0 <= i < j < t.len() implies !path_after(
        #[trigger] t[i],
        #[trigger] t[j],
    ) by {
        if i < k && j < k {
            assert(t[i] == s[i] && t[j] == s[j]);
        } else if i < k && j == k {
            assert(t[i] == s[i]);
        } else if i < k {
            assert(t[i] == s[i] && t[j] == s[j - 1]);
            assert(!path_after(s[i], s[j - 1]));
        } else if i == k {
            assert(t[j] == s[j - 1]);
            if j - 1 > k {
                assert(!path_after(s[k], s[j - 1]));
            } else {
                lemma_path_after_asym(s[k], s[k]);
            }
            lemma_path_le_trans(x, s[k], s[j - 1]);
        } else {
            assert(t[i] == s[i - 1] && t[j] == s[j - 1]);
        }
    }
}

/// Sorts paths (each with whether it is a directory) in the order of
/// `cmp_paths_by_parts`, so that none sorts after the one right after it; paths and flags move together.  When all
/// flags are the same, the result is ordered by depth and then by text.
pub fn sort_by_path_order(paths: &mut Vec<Path>, is_dir: &mut Vec<bool>)
    requires
        old(paths)@.len() == old(is_dir)@.len(),
    ensures
        final(paths)@.len() == old(paths)@.len(),
        final(is_dir)@.len() == old(is_dir)@.len(),
        pairs(final(paths)@, final(is_dir)@).to_multiset() == pairs(
            old(paths)@,
            old(is_dir)@,
        ).to_multiset(),
        neighbours_in_order(pairs(final(paths)@, final(is_dir)@)),
        uniform(old(is_dir)@) ==> sorted_texts(path_views(final(paths)@)),
        uniform(old(is_dir)@) ==> final(is_dir)@ == old(is_dir)@,
{
    let n = paths.len();
    let mut res: Vec<Path> = Vec::new();
    let mut rd: Vec<bool> = Vec::new();
    let mut i: usize = 0;
    assert(pairs(res@, rd@) =~= pairs(paths@.take(0), is_dir@.take(0)));
    while i < n
        invariant
            n == paths@.len(),
            n == is_dir@.len(),
            paths@ == old(paths)@,
            is_dir@ == old(is_dir)@,
            i <= n,
            res@.len() == i,
            rd@.len() == i,
            pairs(res@, rd@).to_multiset() == pairs(paths@.take(i as int), is_dir@.take(i as int)).to_multiset(),
            neighbours_in_order(pairs(res@, rd@)),
            uniform(is_dir@) ==> sorted_texts(path_views(res@)),
            uniform(is_dir@) ==> forall|j: int| 0 <= j < i ==> #[trigger] rd@[j] == is_dir@[j],
        decreases n - i,
    {
        let x = paths[i].clone();
        let dx = is_dir[i];
        let mut k: usize = 0;
        while k < res.len() && !comes_after(&res[k], rd[k], &x, dx)
            invariant
                k <= res@.len(),
                res@.len() == rd@.len(),
                forall|j: int| 0 <= j < k ==> !sorts_after(#[trigger] res@[j]@, rd@[j], x@, dx),
            decreases res.len() - k,
        {
            k = k + 1;
        }
        let ghost before = pairs(res@, rd@);
        let ghost before_views = path_views(res@);
        let ghost before_rd = rd@;
        proof {
            if k > 0 {
                assert(before[k - 1] == (res@[k - 1]@, rd@[k - 1]));
                assert(!sorts_after(res@[k - 1]@, rd@[k - 1], x@, dx));
            }
            lemma_insert_neighbours(before, k as int, (x@, dx));
            if uniform(is_dir@) {
                assert forall|j: int| 0 <= j < k implies !path_after(
                    #[trigger] before_views[j],
                    x@,
                ) by {
                    assert(rd@[j] == is_dir@[j]);
                    assert(is_dir@[j] == is_dir@[i as int]);
                    lemma_parts_order_uniform(res@[j]@, x@, dx);
                }
                if k < res@.len() {
                    assert(rd@[k as int] == is_dir@[k as int]);
                    assert(is_dir@[k as int] == is_dir@[i as int]);
                    lemma_parts_order_uniform(res@[k as int]@, x@, dx);
                }
                lemma_insert_sorted(before_views, k as int, x@);
            }
        }
        res.insert(k, x);
        rd.insert(k, dx);
        proof {
            assert(pairs(res@, rd@) =~= before.insert(k as int, (x@, dx)));
            assert(neighbours_in_order(pairs(res@, rd@)));
            vstd::seq_lib::to_multiset_insert(before, k as int, (x@, dx));
            assert(pairs(paths@.take(i + 1), is_dir@.take(i + 1)) =~= pairs(
                paths@.take(i as int),
                is_dir@.take(i as int),
            ).push((x@, dx)));
            vstd::seq_lib::to_multiset_build(
                pairs(paths@.take(i as int), is_dir@.take(i as int)),
                (x@, dx),
            );
            assert(path_views(res@) =~= before_views.insert(k as int, x@));
            if uniform(is_dir@) {
                assert forall|j: int| 0 <= j < i + 1 implies #[trigger] rd@[j] == is_dir@[j] by {
                    assert(is_dir@[j] == is_dir@[i as int]);
                    if j < k {
                    } else if j == k {
                    } else {
                        assert(rd@[j] == before_rd[j - 1]);
                    }
                }
            }
        }
        i = i + 1;
    }
    assert(paths@.take(n as int) =~= paths@);
    assert(is_dir@.take(n as int) =~= is_dir@);
    *paths = res;
    *is_dir = rd;
}

} // verus!
