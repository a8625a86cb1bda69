//! The order of paths: shallower paths first, then by text; directories are
//! weighed too, as the caller reports them.
use vstd::prelude::*;
use vstd::utf8::encode_utf8;
use std::cmp::Ordering;

use crate::path::{Path, path_parts};
use crate::text::chars_of;

verus! {

/// The number of parts of a path (`Path::split`).
pub open spec fn depth(s: Seq<char>) -> nat {
    path_parts(s).len()
}

/// The depth of a path as an integer.
pub open spec fn depth_of(s: Seq<char>) -> int {
    depth(s) as int
}

/// A `usize` as an integer.
pub open spec fn widen(x: usize) -> int {
    x as int
}

/// The number of bytes of the UTF-8 text of `s` (`str::len`).
pub open spec fn byte_len(s: Seq<char>) -> usize {
    encode_utf8(s).len() as usize
}

/// The characters of `s` from position `i` on.
pub open spec fn suffix(s: Seq<char>, i: usize) -> Seq<char> {
    s.skip(i as int)
}

proof fn lemma_suffix_step(s: Seq<char>, i: usize)
    requires
        i < s.len(),
        i < usize::MAX,
    ensures
        suffix(s, i).len() > 0,
        suffix(s, i)[0] == s[i as int],
        suffix(s, i).drop_first() == suffix(s, (i + 1) as usize),
{
    assert(suffix(s, i).drop_first() =~= suffix(s, (i + 1) as usize));
}

/// `Ordering` of two integers.
pub open spec fn order_of(x: int, y: int) -> Ordering {
    if x < y {
        Ordering::Less
    } else if x == y {
        Ordering::Equal
    } else {
        Ordering::Greater
    }
}

/// The position of an `Ordering` among its variants (`Less < Equal < Greater`).
pub open spec fn order_rank(o: Ordering) -> int {
    match o {
        Ordering::Less => 0,
        Ordering::Equal => 1,
        Ordering::Greater => 2,
    }
}

/// `a.cmp(&b)` for two `Ordering`s.
pub open spec fn order_of_orders(a: Ordering, b: Ordering) -> Ordering {
    order_of(order_rank(a), order_rank(b))
}

/// `a.cmp(&b)` for two `bool`s (`false < true`).
pub open spec fn order_of_bools(a: bool, b: bool) -> Ordering {
    order_of(if a { 1 } else { 0 }, if b { 1 } else { 0 })
}

/// Lexicographic order of two texts, character by character (the order of
/// their UTF-8 bytes).
pub open spec fn text_order(a: Seq<char>, b: Seq<char>) -> Ordering
    decreases a.len(),
{
    if a.len() == 0 {
        if b.len() == 0 { Ordering::Equal } else { Ordering::Less }
    } else if b.len() == 0 {
        Ordering::Greater
    } else if a[0] < b[0] {
        Ordering::Less
    } else if a[0] > b[0] {
        Ordering::Greater
    } else {
        text_order(a.drop_first(), b.drop_first())
    }
}

/// The tie-break between two paths, a total order: the deeper one is
/// greater; at equal depth the longer text (in bytes) is greater; at equal
/// length the texts are compared, so that only equal paths are equal.
pub open spec fn fallback_order(a: Seq<char>, b: Seq<char>) -> Ordering {
    if depth(a) > depth(b) {
        Ordering::Greater
    } else if depth(a) < depth(b) {
        Ordering::Less
    } else if byte_len(a) > byte_len(b) {
        Ordering::Greater
    } else if byte_len(a) < byte_len(b) {
        Ordering::Less
    } else {
        text_order(a, b)
    }
}

/// How two paths compare, given whether each is a directory.
pub open spec fn parts_order(a: Seq<char>, a_dir: bool, b: Seq<char>, b_dir: bool) -> Ordering {
    let o = order_of_orders(
        order_of_bools(b_dir, a_dir),
        order_of_orders(text_order(b, a), order_of(depth_of(a), depth_of(b))),
    );
    if o == Ordering::Equal { fallback_order(a, b) } else { o }
}

/// Whether `a` comes after `b`: it is deeper, or as deep and after it in text.
pub open spec fn path_after(a: Seq<char>, b: Seq<char>) -> bool {
    depth(a) > depth(b) || (depth(a) == depth(b) && text_order(a, b) == Ordering::Greater)
}

/// `x.cmp(&y)` for two `usize`s.
fn order_usize(x: usize, y: usize) -> (r: Ordering)
    ensures
        r == order_of(widen(x), widen(y)),
{
    if x < y {
        Ordering::Less
    } else if x == y {
        Ordering::Equal
    } else {
        Ordering::Greater
    }
}

/// `a.cmp(&b)` for two `bool`s.
fn order_bools(a: bool, b: bool) -> (r: Ordering)
    ensures
        r == order_of_bools(a, b),
{
    if a == b {
        Ordering::Equal
    } else if b {
        Ordering::Less
    } else {
        Ordering::Greater
    }
}

/// `a.cmp(&b)` for two `Ordering`s.
fn order_orders(a: Ordering, b: Ordering) -> (r: Ordering)
    ensures
        r == order_of_orders(a, b),
{
    let x: usize = match a {
        Ordering::Less => 0,
        Ordering::Equal => 1,
        Ordering::Greater => 2,
    };
    let y: usize = match b {
        Ordering::Less => 0,
        Ordering::Equal => 1,
        Ordering::Greater => 2,
    };
    order_usize(x, y)
}

/// Compares two texts character by character.
fn order_texts(a: &Vec<char>, b: &Vec<char>) -> (r: Ordering)
    ensures
        r == text_order(a@, b@),
{
    let mut i: usize = 0;
    assert(suffix(a@, 0) =~= a@);
    assert(suffix(b@, 0) =~= b@);
    while i < a.len() && i < b.len()
        invariant
            i <= a@.len(),
            i <= b@.len(),
            text_order(a@, b@) == text_order(suffix(a@, i), suffix(b@, i)),
        decreases a.len() - i,
    {
        proof {
            lemma_suffix_step(a@, i);
            lemma_suffix_step(b@, i);
        }
        if a[i] < b[i] {
            return Ordering::Less;
        }
        if a[i] > b[i] {
            return Ordering::Greater;
        }
        i = i + 1;
    }
    if i < b.len() {
        Ordering::Less
    } else if i < a.len() {
        Ordering::Greater
    } else {
        Ordering::Equal
    }
}

/// The number of parts of a path.
pub(crate) fn path_depth(p: &Path) -> (r: usize)
    ensures
        r == depth(p@),
{
    p.split().len()
}

/// The number of bytes of the text of a path.
pub(crate) fn path_byte_len(p: &Path) -> (r: usize)
    ensures
        r == byte_len(p@),
{
    p.as_str().len()
}

/// Orders two paths that no earlier comparison told apart: by depth, then by
/// the length of their text, then by their text.
pub fn fallback_cmp_paths_by_parts(a: &Path, b: &Path) -> (r: Ordering)
    ensures
        r == fallback_order(a@, b@),
{
    let da = path_depth(a);
    let db = path_depth(b);
    if da > db {
        Ordering::Greater
    } else if da < db {
        Ordering::Less
    } else {
        let la = path_byte_len(a);
        let lb = path_byte_len(b);
        if la > lb {
            Ordering::Greater
        } else if la < lb {
            Ordering::Less
        } else {
            let ta = chars_of(a.as_str());
            let tb = chars_of(b.as_str());
            order_texts(&ta, &tb)
        }
    }
}

/// Compares two paths, given whether each is a directory.
pub fn cmp_paths_by_parts(a: &Path, a_dir: bool, b: &Path, b_dir: bool) -> (r: Ordering)
    ensures
        r == parts_order(a@, a_dir, b@, b_dir),
{
    let ta = chars_of(a.as_str());
    let tb = chars_of(b.as_str());
    let o = order_orders(
        order_bools(b_dir, a_dir),
        order_orders(order_texts(&tb, &ta), order_usize(path_depth(a), path_depth(b))),
    );
    match o {
        Ordering::Equal => fallback_cmp_paths_by_parts(a, b),
        _ => o,
    }
}

/// Like `cmp_paths_by_parts`, wrapped in `Some`.
pub fn partial_cmp_paths_by_parts(a: &Path, a_dir: bool, b: &Path, b_dir: bool) -> (r: Option<
    Ordering,
>)
    ensures
        r == Some(parts_order(a@, a_dir, b@, b_dir)),
{
    Some(cmp_paths_by_parts(a, a_dir, b, b_dir))
}

} // verus!

verus! {

/// The greater of two texts in text order (the second where they are equal).
pub open spec fn text_max(a: Seq<char>, b: Seq<char>) -> Seq<char> {
    if text_order(a, b) == Ordering::Greater { a } else { b }
}

/// The lesser of two texts in text order (the first where they are equal).
pub open spec fn text_min(a: Seq<char>, b: Seq<char>) -> Seq<char> {
    if text_order(a, b) == Ordering::Greater { b } else { a }
}

/// The longer of two paths in bytes, and the greater in text order where
/// their lengths are equal.
pub open spec fn longest(a: Seq<char>, b: Seq<char>) -> Seq<char> {
    if byte_len(a) > byte_len(b) {
        a
    } else if byte_len(a) < byte_len(b) {
        b
    } else {
        text_max(a, b)
    }
}

/// The shorter of two paths in bytes, and the lesser in text order where
/// their lengths are equal.
pub open spec fn shortest(a: Seq<char>, b: Seq<char>) -> Seq<char> {
    if byte_len(a) < byte_len(b) {
        a
    } else if byte_len(a) > byte_len(b) {
        b
    } else {
        text_min(a, b)
    }
}

/// Whether `clamped` reaches the comparison of texts that requires `lo` not
/// to come after `hi`.
pub open spec fn clamp_compares_text(c: Seq<char>, lo: Seq<char>, hi: Seq<char>) -> bool {
    byte_len(c) <= byte_len(hi) && byte_len(c) >= byte_len(lo)
}

/// `c` held between `lo` and `hi`: by byte length first, then in text order.
pub open spec fn clamped(c: Seq<char>, lo: Seq<char>, hi: Seq<char>) -> Seq<char> {
    if byte_len(c) > byte_len(hi) {
        hi
    } else if byte_len(c) < byte_len(lo) {
        lo
    } else if text_order(c, lo) == Ordering::Less {
        lo
    } else if text_order(c, hi) == Ordering::Greater {
        hi
    } else {
        c
    }
}

/// The deeper of two paths; at equal depth, `longest`.
pub open spec fn deepest(a: Seq<char>, b: Seq<char>) -> Seq<char> {
    if depth(a) > depth(b) {
        a
    } else if depth(a) < depth(b) {
        b
    } else {
        longest(a, b)
    }
}

/// The shallower of two paths; at equal depth, `shortest`.
pub open spec fn shallowest(a: Seq<char>, b: Seq<char>) -> Seq<char> {
    if depth(a) < depth(b) {
        a
    } else if depth(a) > depth(b) {
        b
    } else {
        shortest(a, b)
    }
}

/// Whether clamping by depth reaches the clamp by text.
pub open spec fn depth_clamp_compares_text(c: Seq<char>, lo: Seq<char>, hi: Seq<char>) -> bool {
    depth(c) <= depth(hi) && depth(c) >= depth(lo) && clamp_compares_text(c, lo, hi)
}

/// `c` held between `lo` and `hi`: by depth first, then as `clamped`.
pub open spec fn depth_clamped(c: Seq<char>, lo: Seq<char>, hi: Seq<char>) -> Seq<char> {
    if depth(c) > depth(hi) {
        hi
    } else if depth(c) < depth(lo) {
        lo
    } else {
        clamped(c, lo, hi)
    }
}

/// The longer of two paths in bytes (the greater text where they are as long).
pub fn path_ord_to_string_max(a: Path, b: Path) -> (r: Path)
    ensures
        r@ == longest(a@, b@),
{
    let la = path_byte_len(&a);
    let lb = path_byte_len(&b);
    if la > lb {
        a
    } else if la < lb {
        b
    } else {
        let ta = chars_of(a.as_str());
        let tb = chars_of(b.as_str());
        match order_texts(&ta, &tb) {
            Ordering::Greater => Path::raw(a.as_str()),
            _ => Path::raw(b.as_str()),
        }
    }
}

/// The shorter of two paths in bytes (the lesser text where they are as long).
pub fn path_ord_to_string_min(a: Path, b: Path) -> (r: Path)
    ensures
        r@ == shortest(a@, b@),
{
    let la = path_byte_len(&a);
    let lb = path_byte_len(&b);
    if la < lb {
        a
    } else if la > lb {
        b
    } else {
        let ta = chars_of(a.as_str());
        let tb = chars_of(b.as_str());
        match order_texts(&ta, &tb) {
            Ordering::Greater => Path::raw(b.as_str()),
            _ => Path::raw(a.as_str()),
        }
    }
}

/// Holds `current` between `min` and `max`, by byte length and then by text.
pub fn path_ord_to_string_clamp(current: Path, min: Path, max: Path) -> (r: Path)
    requires
        clamp_compares_text(current@, min@, max@) ==> text_order(min@, max@) != Ordering::Greater,
    ensures
        r@ == clamped(current@, min@, max@),
{
    let lc = path_byte_len(&current);
    let lmin = path_byte_len(&min);
    let lmax = path_byte_len(&max);
    if lc > lmax {
        max
    } else if lc < lmin {
        min
    } else {
        let tc = chars_of(current.as_str());
        let tmin = chars_of(min.as_str());
        let tmax = chars_of(max.as_str());
        match order_texts(&tc, &tmin) {
            Ordering::Less => Path::raw(min.as_str()),
            _ => match order_texts(&tc, &tmax) {
                Ordering::Greater => Path::raw(max.as_str()),
                _ => Path::raw(current.as_str()),
            },
        }
    }
}

/// The deeper of two paths; at equal depth, the longer (`path_ord_to_string_max`).
pub fn path_ord_split_max(a: Path, b: Path) -> (r: Path)
    ensures
        r@ == deepest(a@, b@),
{
    let da = path_depth(&a);
    let db = path_depth(&b);
    if da > db {
        a
    } else if da < db {
        b
    } else {
        path_ord_to_string_max(a, b)
    }
}

/// The shallower of two paths; at equal depth, the shorter (`path_ord_to_string_min`).
pub fn path_ord_split_min(a: Path, b: Path) -> (r: Path)
    ensures
        r@ == shallowest(a@, b@),
{
    let da = path_depth(&a);
    let db = path_depth(&b);
    if da < db {
        a
    } else if da > db {
        b
    } else {
        path_ord_to_string_min(a, b)
    }
}

/// Holds `current` between `min` and `max` by depth, then as
/// `path_ord_to_string_clamp`.
pub fn path_ord_split_clamp(current: Path, min: Path, max: Path) -> (r: Path)
    requires
        depth_clamp_compares_text(current@, min@, max@) ==> text_order(min@, max@)
            != Ordering::Greater,
    ensures
        r@ == depth_clamped(current@, min@, max@),
{
    let dc = path_depth(&current);
    let dmin = path_depth(&min);
    let dmax = path_depth(&max);
    if dc > dmax {
        max
    } else if dc < dmin {
        min
    } else {
        path_ord_to_string_clamp(current, min, max)
    }
}

} // verus!

verus! {

/// Whether `a` sorts after `b`, each with its directory flag.
pub open spec fn sorts_after(a: Seq<char>, a_dir: bool, b: Seq<char>, b_dir: bool) -> bool {
    parts_order(a, a_dir, b, b_dir) == Ordering::Greater
}

/// Text order read backwards: swapping the texts reverses the order, and
/// only equal texts are equal in it.
pub proof fn lemma_text_order_swap(a: Seq<char>, b: Seq<char>)
    ensures
        text_order(a, b) == Ordering::Less <==> text_order(b, a) == Ordering::Greater,
        text_order(a, b) == Ordering::Equal <==> a == b,
    decreases a.len(),
{
    if a.len() > 0 && b.len() > 0 && a[0] == b[0] {
        lemma_text_order_swap(a.drop_first(), b.drop_first());
        if a.drop_first() == b.drop_first() {
            assert(a =~= seq![a[0]] + a.drop_first());
            assert(b =~= seq![b[0]] + b.drop_first());
        }
    }
    if a.len() == 0 && b.len() == 0 {
        assert(a =~= b);
    }
    if a == b {
        lemma_text_order_refl(a);
    }
}

proof fn lemma_text_order_refl(a: Seq<char>)
    ensures
        text_order(a, a) == Ordering::Equal,
    decreases a.len(),
{
    if a.len() > 0 {
        lemma_text_order_refl(a.drop_first());
    }
}

/// Text order is transitive.
pub proof fn lemma_text_order_trans(a: Seq<char>, b: Seq<char>, c: Seq<char>)
    requires
        text_order(a, b) != Ordering::Greater,
        text_order(b, c) != Ordering::Greater,
    ensures
        text_order(a, c) != Ordering::Greater,
    decreases a.len(),
{
    if a.len() > 0 && b.len() > 0 && c.len() > 0 && a[0] == b[0] && b[0] == c[0] {
        lemma_text_order_trans(a.drop_first(), b.drop_first(), c.drop_first());
    }
}

/// Between two paths that are both directories or both not, the comparison
/// says "greater" exactly where the first is deeper, or as deep and after the
/// second in text.
pub proof fn lemma_parts_order_uniform(a: Seq<char>, b: Seq<char>, d: bool)
    ensures
        sorts_after(a, d, b, d) == path_after(a, b),
{
    lemma_text_order_swap(a, b);
    lemma_text_order_swap(b, a);
    let s = text_order(b, a);
    let dp = order_of(depth_of(a), depth_of(b));
    let y = order_of_orders(s, dp);
    let o = order_of_orders(order_of_bools(d, d), y);
    assert(order_of_bools(d, d) == Ordering::Equal);
    assert(o == Ordering::Greater <==> y == Ordering::Less);
    assert(o == Ordering::Equal <==> y == Ordering::Equal);
    if a == b {
        assert(depth(a) == depth(b));
    }
}

/// Of two distinct paths, at most one comes after the other.
pub proof fn lemma_path_after_asym(a: Seq<char>, b: Seq<char>)
    ensures
        path_after(a, b) ==> !path_after(b, a),
        !path_after(a, a),
{
    lemma_text_order_swap(a, b);
    lemma_text_order_refl(a);
}

/// Not coming after is transitive.
pub proof fn lemma_path_le_trans(a: Seq<char>, b: Seq<char>, c: Seq<char>)
    requires
        !path_after(a, b),
        !path_after(b, c),
    ensures
        !path_after(a, c),
{
    if depth(a) == depth(b) && depth(b) == depth(c) {
        lemma_text_order_trans(a, b, c);
    }
}

/// Reversing the arguments of `order_of` reverses the order.
proof fn lemma_order_of_swap(x: int, y: int)
    ensures
        order_rank(order_of(y, x)) == 2 - order_rank(order_of(x, y)),
{
}

/// Comparing two reversed orders reverses their comparison.
proof fn lemma_order_of_orders_reversed(x: Ordering, y: Ordering, rx: Ordering, ry: Ordering)
    requires
        order_rank(rx) == 2 - order_rank(x),
        order_rank(ry) == 2 - order_rank(y),
    ensures
        order_rank(order_of_orders(rx, ry)) == 2 - order_rank(order_of_orders(x, y)),
{
}

/// The tie-break is a total order: only equal texts compare equal, and
/// swapping the paths reverses the answer.
pub proof fn lemma_fallback_order_total(a: Seq<char>, b: Seq<char>)
    ensures
        fallback_order(a, b) == Ordering::Equal <==> a == b,
        order_rank(fallback_order(b, a)) == 2 - order_rank(fallback_order(a, b)),
{
    lemma_text_order_swap(a, b);
    lemma_text_order_swap(b, a);
}

/// Comparing swapped paths reverses the order, and only equal paths with
/// equal flags compare equal.
pub proof fn lemma_parts_order_total(a: Seq<char>, a_dir: bool, b: Seq<char>, b_dir: bool)
    ensures
        parts_order(a, a_dir, b, b_dir) == Ordering::Equal <==> (a == b && a_dir == b_dir),
        order_rank(parts_order(b, b_dir, a, a_dir)) == 2 - order_rank(parts_order(a, a_dir, b, b_dir)),
{
    lemma_fallback_order_total(a, b);
    lemma_text_order_swap(a, b);
    lemma_text_order_swap(b, a);
    lemma_order_of_swap(if b_dir { 1 } else { 0 }, if a_dir { 1 } else { 0 });
    lemma_order_of_swap(depth_of(a), depth_of(b));
    let ba = order_of_bools(b_dir, a_dir);
    let ab = order_of_bools(a_dir, b_dir);
    let tba = text_order(b, a);
    let tab = text_order(a, b);
    let dab = order_of(depth_of(a), depth_of(b));
    let dba = order_of(depth_of(b), depth_of(a));
    lemma_order_of_orders_reversed(tba, dab, tab, dba);
    let y = order_of_orders(tba, dab);
    let ry = order_of_orders(tab, dba);
    lemma_order_of_orders_reversed(ba, y, ab, ry);
    if a == b && a_dir == b_dir {
        lemma_text_order_refl(a);
    }
}

/// Of two paths with their directory flags, at most one sorts after the
/// other.
pub proof fn lemma_sorts_after_asym(a: Seq<char>, a_dir: bool, b: Seq<char>, b_dir: bool)
    ensures
        sorts_after(a, a_dir, b, b_dir) ==> !sorts_after(b, b_dir, a, a_dir),
{
    lemma_text_order_swap(a, b);
    lemma_text_order_swap(b, a);
    let ba = order_of_bools(b_dir, a_dir);
    let ab = order_of_bools(a_dir, b_dir);
    lemma_order_of_swap(if b_dir { 1 } else { 0 }, if a_dir { 1 } else { 0 });
    let tba = text_order(b, a);
    let tab = text_order(a, b);
    assert(order_rank(tab) == 2 - order_rank(tba));
    let dab = order_of(depth_of(a), depth_of(b));
    let dba = order_of(depth_of(b), depth_of(a));
    lemma_order_of_swap(depth_of(a), depth_of(b));
    lemma_order_of_orders_reversed(tba, dab, tab, dba);
    let y = order_of_orders(tba, dab);
    let ry = order_of_orders(tab, dba);
    lemma_order_of_orders_reversed(ba, y, ab, ry);
}

/// Whether `a` sorts after `b`, each with its directory flag.
pub fn comes_after(a: &Path, a_dir: bool, b: &Path, b_dir: bool) -> (r: bool)
    ensures
        r == sorts_after(a@, a_dir, b@, b_dir),
{
    match cmp_paths_by_parts(a, a_dir, b, b_dir) {
        Ordering::Greater => true,
        _ => false,
    }
}

} // verus!
