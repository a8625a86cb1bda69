//! Byte counts and the binary units (powers of 1024) used to print them.
use vstd::prelude::*;

use crate::text::{decimal, push_char, push_decimal};

verus! {

/// A binary unit of bytes: each is 1024 times the previous one.
#[derive(Debug, Clone, Copy, PartialEq, Eq, Structural, PartialOrd, Ord, Hash)]
pub enum ByteUnit {
    Byte,
    Kilo,
    Mega,
    Giga,
    Tera,
    Peta,
}

/// A number of bytes.
#[derive(Debug, Clone, Copy, PartialEq, Eq, Structural, PartialOrd, Ord, Hash)]
pub struct Size {
    pub bytes: u64,
}

impl View for Size {
    type V = u64;

    open spec fn view(&self) -> u64 {
        self.bytes
    }
}

/// `b` to the power `e`.
pub open spec fn power(b: nat, e: nat) -> nat
    decreases e,
{
    if e == 0 {
        1
    } else {
        power(b, (e - 1) as nat) * b
    }
}

/// 1024 to the power `k`.
pub open spec fn pow1024(k: nat) -> nat {
    power(1024, k)
}

/// The position of each unit, from 1 (bytes) to 6 (petabytes).
pub open spec fn unit_scale(u: ByteUnit) -> u32 {
    match u {
        ByteUnit::Byte => 1,
        ByteUnit::Kilo => 2,
        ByteUnit::Mega => 3,
        ByteUnit::Giga => 4,
        ByteUnit::Tera => 5,
        ByteUnit::Peta => 6,
    }
}

/// The abbreviation of each unit.
pub open spec fn unit_name(u: ByteUnit) -> Seq<char> {
    match u {
        ByteUnit::Byte => "B"@,
        ByteUnit::Kilo => "Kb"@,
        ByteUnit::Mega => "Mb"@,
        ByteUnit::Giga => "Gb"@,
        ByteUnit::Tera => "Tb"@,
        ByteUnit::Peta => "Pb"@,
    }
}

/// The units, smallest first.
pub open spec fn all_units() -> Seq<ByteUnit> {
    seq![ByteUnit::Byte, ByteUnit::Kilo, ByteUnit::Mega, ByteUnit::Giga, ByteUnit::Tera, ByteUnit::Peta]
}

/// The number of bytes in one of `u`.
pub open spec fn unit_bytes(u: ByteUnit) -> nat {
    pow1024((unit_scale(u) - 1) as nat)
}

/// How many times 1024 divides into `n` before less than 1024 is left.
pub open spec fn log1024(n: nat) -> nat
    decreases n,
{
    if n < 1024 {
        0
    } else {
        1 + log1024(n / 1024)
    }
}

/// The largest unit that is not more than `n` bytes (for `1 <= n < 1024^6`).
pub open spec fn fitting_unit(n: nat) -> ByteUnit {
    all_units()[log1024(n) as int]
}

/// What is left of `n` bytes after whole units of `fitting_unit(n)`, if anything.
pub open spec fn fit_remainder(n: nat) -> Option<u64> {
    let r = n % unit_bytes(fitting_unit(n));
    if r > 0 { Some(r as u64) } else { None }
}

/// The sizes that `ByteUnit::fit` handles: at least one byte and less than 1024^6 bytes.
pub open spec fn fits_a_unit(n: nat) -> bool {
    1 <= n < pow1024(6)
}

/// `b.exp(e)`: `b` to the power `e`, or `b` itself where the power overflows.
pub open spec fn exp_or_self(b: u64, e: u32) -> u64 {
    if power(b as nat, e as nat) <= u64::MAX { power(b as nat, e as nat) as u64 } else { b }
}

/// The text of a size: whole units, then `.` and the remainder if there is one,
/// then the unit's abbreviation.
pub open spec fn size_text(n: nat) -> Seq<char> {
    let u = fitting_unit(n);
    decimal(n / unit_bytes(u)) + match fit_remainder(n) {
        Some(r) => seq!['.'] + decimal(r as nat),
        None => Seq::empty(),
    } + unit_name(u)
}

proof fn lemma_power_monotone(b: nat, i: nat, j: nat)
    requires
        b >= 1,
        i <= j,
    ensures
        power(b, i) <= power(b, j),
    decreases j,
{
    if j > i {
        lemma_power_monotone(b, i, (j - 1) as nat);
        let p = power(b, (j - 1) as nat);
        assert(p * b >= p) by (nonlinear_arith)
            requires
                b >= 1,
        ;
    }
}

proof fn lemma_pow1024_values()
    ensures
        pow1024(0) == 1,
        pow1024(1) == 1024,
        pow1024(2) == 1048576,
        pow1024(3) == 1073741824,
        pow1024(4) == 1099511627776,
        pow1024(5) == 1125899906842624,
        pow1024(6) == 1152921504606846976,
{
    reveal_with_fuel(power, 7);
}

proof fn lemma_log1024_bound(n: nat, m: nat)
    requires
        n < pow1024(m),
        n >= 1,
    ensures
        log1024(n) < m,
    decreases m,
{
    if m == 0 {
        assert(pow1024(0) == 1) by {
            reveal_with_fuel(power, 1);
        }
    } else if n >= 1024 {
        let p = pow1024((m - 1) as nat);
        assert(pow1024(m) == p * 1024);
        assert(n / 1024 < p) by (nonlinear_arith)
            requires
                n < p * 1024,
        ;
        lemma_log1024_bound(n / 1024, (m - 1) as nat);
    }
}

/// `1024^log1024(n)` bytes fit in `n` and `1024^(log1024(n) + 1)` do not.
proof fn lemma_log1024_brackets(n: nat)
    requires
        n >= 1,
    ensures
        pow1024(log1024(n)) <= n < pow1024(log1024(n) + 1),
    decreases n,
{
    if n >= 1024 {
        lemma_log1024_brackets(n / 1024);
        let k = log1024(n / 1024);
        let p = pow1024(k);
        assert(pow1024(k + 1) == p * 1024);
        assert(pow1024(k + 2) == pow1024(k + 1) * 1024);
        assert(p * 1024 <= n < p * 1024 * 1024) by (nonlinear_arith)
            requires
                p <= n / 1024 < p * 1024,
                n >= 1024,
        ;
    } else {
        assert(pow1024(0) == 1 && pow1024(1) == 1024) by {
            reveal_with_fuel(power, 2);
        }
    }
}

impl Size {
    /// The number of bytes.
    pub fn as_u64(self) -> (r: u64)
        ensures
            r == self@,
    {
        self.bytes
    }

    /// The largest unit that fits in this size.
    pub fn unit(self) -> (u: ByteUnit)
        requires
            fits_a_unit(self@ as nat),
        ensures
            u == fitting_unit(self@ as nat),
    {
        let (unit, _) = ByteUnit::fit(self);
        unit
    }

    /// This size to the power `by`; the size itself where that overflows.
    pub fn exp(self, by: u32) -> (r: Size)
        ensures
            r@ == exp_or_self(self@, by),
    {
        let b = self.bytes;
        let mut acc: u64 = 1;
        let mut i: u32 = 0;
        while i < by
            invariant
                i <= by,
                b == self@,
                acc as nat == power(b as nat, i as nat),
            decreases by - i,
        {
            match acc.checked_mul(b) {
                Some(x) => {
                    acc = x;
                },
                None => {
                    proof {
                        assert(b as int >= 1) by (nonlinear_arith)
                            requires
                                acc as int * b as int > u64::MAX,
                        ;
                        assert(power(b as nat, (i + 1) as nat) == power(b as nat, i as nat) * b as nat);
                        assert(power(b as nat, (i + 1) as nat) > u64::MAX);
                        lemma_power_monotone(b as nat, (i + 1) as nat, by as nat);
                    }
                    return Size { bytes: b };
                },
            }
            i = i + 1;
        }
        Size { bytes: acc }
    }

    /// A size of `bytes` bytes.
    pub fn from_bytes(bytes: u64) -> (r: Size)
        ensures
            r@ == bytes,
    {
        Size { bytes }
    }

    /// Adds `other` to this size.
    pub fn add_assign(&mut self, other: Size)
        requires
            old(self)@ + other@ <= u64::MAX,
        ensures
            final(self)@ == old(self)@ + other@,
    {
        self.bytes = self.bytes + other.bytes;
    }

    /// Subtracts `other` from this size.
    pub fn sub_assign(&mut self, other: Size)
        requires
            old(self)@ >= other@,
        ensures
            final(self)@ == old(self)@ - other@,
    {
        self.bytes = self.bytes - other.bytes;
    }

    /// Multiplies this size by `other`.
    pub fn mul_assign(&mut self, other: Size)
        requires
            old(self)@ * other@ <= u64::MAX,
        ensures
            final(self)@ == old(self)@ * other@,
    {
        self.bytes = self.bytes * other.bytes;
    }

    /// Divides this size by `other`.
    pub fn div_assign(&mut self, other: Size)
        requires
            other@ > 0,
        ensures
            final(self)@ == old(self)@ / other@,
    {
        self.bytes = self.bytes / other.bytes;
    }

    /// The total of a sequence of sizes.
    pub fn sum(sizes: &Vec<Size>) -> (r: Size)
        requires
            sum_of(sizes@) <= u64::MAX,
        ensures
            r@ == sum_of(sizes@),
    {
        let mut total = Size::default();
        let mut i: usize = 0;
        while i < sizes.len()
            invariant
                i <= sizes@.len(),
                total@ == sum_of(sizes@.subrange(0, i as int)),
                sum_of(sizes@) <= u64::MAX,
            decreases sizes.len() - i,
        {
            proof {
                assert(sizes@.subrange(0, i + 1).drop_last() =~= sizes@.subrange(0, i as int));
                lemma_sum_of_prefix(sizes@, i + 1);
            }
            total.add_assign(sizes[i]);
            i = i + 1;
        }
        assert(sizes@.subrange(0, sizes@.len() as int) =~= sizes@);
        total
    }

    /// The text of this size, such as `1.1013Kb` for 2037 bytes.
    pub fn to_string(&self) -> (r: String)
        requires
            fits_a_unit(self@ as nat),
        ensures
            r@ == size_text(self@ as nat),
    {
        ByteUnit::fmt(*self)
    }
}

/// The total number of bytes in `s`.
pub open spec fn sum_of(s: Seq<Size>) -> nat
    decreases s.len(),
{
    if s.len() == 0 {
        0
    } else {
        sum_of(s.drop_last()) + s.last()@ as nat
    }
}

proof fn lemma_sum_of_prefix(s: Seq<Size>, i: int)
    requires
        0 <= i <= s.len(),
    ensures
        sum_of(s.subrange(0, i)) <= sum_of(s),
    decreases s.len(),
{
    if i < s.len() {
        assert(s.drop_last().subrange(0, i) =~= s.subrange(0, i));
        lemma_sum_of_prefix(s.drop_last(), i);
    } else {
        assert(s.subrange(0, i) =~= s);
    }
}

impl vstd::std_specs::convert::FromSpecImpl<u64> for Size {
    open spec fn obeys_from_spec() -> bool {
        true
    }

    open spec fn from_spec(v: u64) -> Size {
        Size { bytes: v }
    }
}

impl From<u64> for Size {
    fn from(bytes: u64) -> (r: Size) {
        Size { bytes }
    }
}

impl Default for Size {
    fn default() -> (r: Size)
        ensures
            r@ == 0,
    {
        Size { bytes: 0 }
    }
}

impl core::ops::Add for Size {
    type Output = Size;

    fn add(self, other: Size) -> (r: Size) {
        Size { bytes: self.bytes + other.bytes }
    }
}

impl vstd::std_specs::ops::AddSpecImpl for Size {
    open spec fn obeys_add_spec() -> bool {
        true
    }

    open spec fn add_req(self, rhs: Size) -> bool {
        self.bytes + rhs.bytes <= u64::MAX
    }

    open spec fn add_spec(self, rhs: Size) -> Size {
        Size { bytes: (self.bytes + rhs.bytes) as u64 }
    }
}

impl core::ops::Sub for Size {
    type Output = Size;

    fn sub(self, other: Size) -> (r: Size) {
        Size { bytes: self.bytes - other.bytes }
    }
}

impl vstd::std_specs::ops::SubSpecImpl for Size {
    open spec fn obeys_sub_spec() -> bool {
        true
    }

    open spec fn sub_req(self, rhs: Size) -> bool {
        self.bytes >= rhs.bytes
    }

    open spec fn sub_spec(self, rhs: Size) -> Size {
        Size { bytes: (self.bytes - rhs.bytes) as u64 }
    }
}

impl core::ops::Mul for Size {
    type Output = Size;

    fn mul(self, other: Size) -> (r: Size) {
        Size { bytes: self.bytes * other.bytes }
    }
}

impl vstd::std_specs::ops::MulSpecImpl for Size {
    open spec fn obeys_mul_spec() -> bool {
        true
    }

    open spec fn mul_req(self, rhs: Size) -> bool {
        self.bytes * rhs.bytes <= u64::MAX
    }

    open spec fn mul_spec(self, rhs: Size) -> Size {
        Size { bytes: (self.bytes * rhs.bytes) as u64 }
    }
}

impl core::ops::Div for Size {
    type Output = Size;

    fn div(self, other: Size) -> (r: Size) {
        Size { bytes: self.bytes / other.bytes }
    }
}

impl vstd::std_specs::ops::DivSpecImpl for Size {
    open spec fn obeys_div_spec() -> bool {
        true
    }

    open spec fn div_req(self, rhs: Size) -> bool {
        rhs.bytes != 0
    }

    open spec fn div_spec(self, rhs: Size) -> Size {
        Size { bytes: self.bytes / rhs.bytes }
    }
}

impl ByteUnit {
    /// One byte.
    pub fn byte(self) -> (r: Size)
        ensures
            r@ == 1,
    {
        Size { bytes: 1 }
    }

    /// One kilobyte (1024 bytes).
    fn kilo(self) -> (r: Size)
        ensures
            r@ == 1024,
    {
        Size { bytes: 1024 }
    }

    /// The position of this unit, from 1 (bytes) to 6 (petabytes).
    pub fn scale(self) -> (r: u32)
        ensures
            r == unit_scale(self),
    {
        match self {
            ByteUnit::Byte => 1,
            ByteUnit::Kilo => 2,
            ByteUnit::Mega => 3,
            ByteUnit::Giga => 4,
            ByteUnit::Tera => 5,
            ByteUnit::Peta => 6,
        }
    }

    /// The abbreviation of this unit.
    pub fn as_str(self) -> (r: &'static str)
        ensures
            r@ == unit_name(self),
    {
        match self {
            ByteUnit::Byte => "B",
            ByteUnit::Kilo => "Kb",
            ByteUnit::Mega => "Mb",
            ByteUnit::Giga => "Gb",
            ByteUnit::Tera => "Tb",
            ByteUnit::Peta => "Pb",
        }
    }

    /// The size of one of this unit.
    pub fn size(self) -> (r: Size)
        ensures
            r@ == unit_bytes(self),
    {
        proof {
            lemma_pow1024_values();
        }
        let r = self.kilo().exp(self.scale() - 1);
        proof {
            reveal_with_fuel(power, 7);
        }
        r
    }

    /// The number of bytes in one of this unit.
    pub fn as_u64(self) -> (r: u64)
        ensures
            r == unit_bytes(self),
    {
        self.size().as_u64()
    }

    /// All units, smallest first.
    pub fn variants() -> (r: Vec<ByteUnit>)
        ensures
            r@ == all_units(),
    {
        let r = vec![ByteUnit::Byte, ByteUnit::Kilo, ByteUnit::Mega, ByteUnit::Giga, ByteUnit::Tera, ByteUnit::Peta];
        assert(r@ =~= all_units());
        r
    }

    /// The largest unit that fits in `size`, with what is left of `size` after
    /// whole units of it, if anything.
    pub fn fit(size: Size) -> (r: (ByteUnit, Option<u64>))
        requires
            fits_a_unit(size@ as nat),
        ensures
            r.0 == fitting_unit(size@ as nat),
            r.1 == fit_remainder(size@ as nat),
    {
        let n0 = size.as_u64();
        proof {
            lemma_pow1024_values();
            lemma_log1024_bound(n0 as nat, 6);
        }
        let mut n = n0;
        let mut log: usize = 0;
        while n >= 1024
            invariant
                n >= 1,
                log1024(n0 as nat) == log + log1024(n as nat),
                log <= 6,
                log1024(n0 as nat) < 6,
            decreases n,
        {
            n = n / 1024;
            log = log + 1;
        }
        proof {
            lemma_pow1024_values();
            lemma_log1024_bound(n0 as nat, 6);
        }
        let variant = ByteUnit::variants()[log];
        let remainder = n0 % variant.as_u64();
        (variant, if remainder > 0 { Some(remainder) } else { None })
    }

    /// The text of `size`: whole units, then `.` and the remainder if there is
    /// one, then the unit's abbreviation.
    pub fn fmt(size: Size) -> (r: String)
        requires
            fits_a_unit(size@ as nat),
        ensures
            r@ == size_text(size@ as nat),
    {
        let (unit, remainder) = ByteUnit::fit(size);
        proof {
            lemma_pow1024_values();
        }
        let mut r = String::new();
        push_decimal(&mut r, size.as_u64() / unit.as_u64());
        match remainder {
            Some(rem) => {
                push_char(&mut r, '.');
                push_decimal(&mut r, rem);
            },
            None => {},
        }
        r.append(unit.as_str());
        assert(r@ =~= size_text(size@ as nat));
        r
    }
}

/// The unit that `fit` picks is the largest whose size is not more than the
/// given size, and the size is a whole number of those units plus the remainder.
pub proof fn lemma_fit_brackets(n: nat)
    requires
        fits_a_unit(n),
    ensures
        unit_bytes(fitting_unit(n)) <= n,
        n < unit_bytes(fitting_unit(n)) * 1024,
        n == (n / unit_bytes(fitting_unit(n))) * unit_bytes(fitting_unit(n)) + match fit_remainder(n) {
            Some(r) => r as nat,
            None => 0,
        },
{
    lemma_pow1024_values();
    lemma_log1024_bound(n, 6);
    lemma_log1024_brackets(n);
    let k = log1024(n);
    assert(unit_scale(all_units()[k as int]) == k + 1);
    let u = unit_bytes(fitting_unit(n));
    assert(u == pow1024(k));
    assert(pow1024(k + 1) == pow1024(k) * 1024);
    assert(u > 0);
    assert(n == (n / u) * u + n % u) by (nonlinear_arith)
        requires
            u > 0,
    ;
}

/// The text of a size that a unit fits names the count of whole units: for
/// any `w` and `r < unit` with `w * unit + r == n`, the text is `w`, then `.`
/// and `r` where `r` is not zero, then the unit; and `w` is from 1 to 1023.
pub proof fn lemma_size_text_whole_units(n: nat, w: nat, r: nat)
    requires
        fits_a_unit(n),
        w * unit_bytes(fitting_unit(n)) + r == n,
        r < unit_bytes(fitting_unit(n)),
    ensures
        1 <= w < 1024,
        size_text(n) == decimal(w) + (if r > 0 { seq!['.'] + decimal(r) } else { Seq::<char>::empty() })
            + unit_name(fitting_unit(n)),
{
    lemma_fit_brackets(n);
    let ub = unit_bytes(fitting_unit(n));
    assert(ub > 0) by (nonlinear_arith)
        requires ub <= n, n < ub * 1024;
    vstd::arithmetic::div_mod::lemma_fundamental_div_mod_converse(n as int, ub as int, w as int, r as int);
    assert(1 <= w < 1024) by (nonlinear_arith)
        requires w * ub + r == n, r < ub, ub <= n, n < ub * 1024, ub > 0;
    assert(r < pow1024(6)) by {
        assert(r < n);
    }
    lemma_pow1024_values();
}

} // verus!
