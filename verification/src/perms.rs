//! Unix permissions as three triples of read, write and execute bits (user,
//! group, other), built on the `trilobyte` crate.
use vstd::prelude::*;

use crate::errors::Error;
use crate::sys::{NumberFailure, number_failure_message, number_failure_text, u32_from_str_radix, u32_from_text_radix};
use crate::text::{decimal, owned};

verus! {

/// Three permission bits: read, write, execute (the fields of a
/// `trilobyte::TriloByte`).
#[derive(Debug, Clone, Copy, PartialEq, Eq, Structural, Default)]
pub struct RoleBits(pub bool, pub bool, pub bool);

/// The number the bits stand for: read is four, write two, execute one.
pub open spec fn bits_value(b: RoleBits) -> nat {
    (if b.0 { 4nat } else { 0nat }) + (if b.1 { 2nat } else { 0nat }) + (if b.2 { 1nat } else { 0nat })
}

/// The bits of a number below eight.
pub open spec fn bits_of(v: nat) -> RoleBits {
    RoleBits(v % 8 >= 4, v % 4 >= 2, v % 2 == 1)
}

/// `trilobyte::high_water_mark_u8_to_trilobyte`: takes eight away until the
/// value is below eight, that is, the value modulo eight.
#[verifier::external_body]
fn high_water_mark(v: u8) -> (r: u8)
    ensures
        r == v % 8,
{
    trilobyte::high_water_mark_u8_to_trilobyte(v)
}

/// `TriloByte::from(v)` (`from_u8_highwatermark`): the three low bits of `v`.
#[verifier::external_body]
fn trilobyte_from(v: u8) -> (r: RoleBits)
    ensures
        r == bits_of(v as nat),
{
    let t = trilobyte::TriloByte::from(v);
    RoleBits(t.0, t.1, t.2)
}

/// `TriloByte::into_u8`: the bits read as a binary number.
#[verifier::external_body]
fn trilobyte_into_u8(b: RoleBits) -> (r: u8)
    ensures
        r == bits_value(b),
{
    trilobyte::TriloByte(b.0, b.1, b.2).into_u8()
}

/// `TriloByte::to_string_octal`: the decimal text of `into_u8`.
#[verifier::external_body]
fn trilobyte_octal(b: RoleBits) -> (r: String)
    ensures
        r@ == decimal(bits_value(b)),
{
    trilobyte::TriloByte(b.0, b.1, b.2).to_string_octal()
}

impl RoleBits {
    /// The bits of `v` modulo eight (`TriloByte::from`).
    pub fn from_u8(v: u8) -> (r: RoleBits)
        ensures
            r == bits_of(v as nat),
    {
        trilobyte_from(v)
    }

    /// The number these bits stand for.
    pub fn into_u8(self) -> (r: u8)
        ensures
            r == bits_value(self),
    {
        trilobyte_into_u8(self)
    }
}

/// The permissions of the user, the group and everyone else.
#[derive(Debug, Clone, Copy, PartialEq, Eq, Structural, Default)]
pub struct PathPermissions {
    pub user: RoleBits,
    pub group: RoleBits,
    pub other: RoleBits,
}

/// One role's permissions.
#[derive(Debug, Clone, Copy, PartialEq, Eq, Structural)]
pub struct Permission(pub RoleBits);

/// The mode number of permissions: user, group and other as octal digits.
pub open spec fn permissions_value(p: PathPermissions) -> nat {
    bits_value(p.user) * 64 + bits_value(p.group) * 8 + bits_value(p.other)
}

/// The octal text of permissions: one digit per role.
pub open spec fn permissions_octal(p: PathPermissions) -> Seq<char> {
    decimal(bits_value(p.user)) + decimal(bits_value(p.group)) + decimal(bits_value(p.other))
}

/// The permissions that a mode number gives: its low nine bits.
pub open spec fn permissions_of(val: u32) -> PathPermissions {
    PathPermissions {
        user: bits_of((val / 64) as nat),
        group: bits_of((val / 8) as nat),
        other: bits_of(val as nat),
    }
}

proof fn lemma_bits_value_small(b: RoleBits)
    ensures
        bits_value(b) < 8,
{
}

impl PathPermissions {
    /// The number of each role: user, group, other.
    pub fn to_array(self) -> (r: [u8; 3])
        ensures
            r@ == seq![bits_value(self.user) as u8, bits_value(self.group) as u8, bits_value(self.other) as u8],
    {
        let r = [self.user.into_u8(), self.group.into_u8(), self.other.into_u8()];
        assert(r@ =~= seq![bits_value(self.user) as u8, bits_value(self.group) as u8, bits_value(self.other) as u8]);
        r
    }

    /// The octal text: one digit per role.
    pub fn to_string_octal(self) -> (r: String)
        ensures
            r@ == permissions_octal(self),
    {
        let mut r = trilobyte_octal(self.user);
        let g = trilobyte_octal(self.group);
        r.append(g.as_str());
        let o = trilobyte_octal(self.other);
        r.append(o.as_str());
        r
    }

    /// The text these permissions are shown with (`to_string_octal`).
    pub fn to_string(self) -> (r: String)
        ensures
            r@ == permissions_octal(self),
    {
        self.to_string_octal()
    }

    /// The mode number: user, group and other as octal digits.
    pub fn into_u32(self) -> (r: u32)
        ensures
            r == permissions_value(self),
    {
        let u = self.user.into_u8() as u32;
        let g = self.group.into_u8() as u32;
        let o = self.other.into_u8() as u32;
        proof {
            lemma_bits_value_small(self.user);
            lemma_bits_value_small(self.group);
            lemma_bits_value_small(self.other);
        }
        u * 64 + g * 8 + o
    }

    /// The permissions in the low nine bits of `val`.
    pub fn from_u32(val: u32) -> (r: Result<PathPermissions, Error>)
        ensures
            r == Ok::<PathPermissions, Error>(permissions_of(val)),
    {
        let u = (val >> 6) as u8;
        let g = (val >> 3) as u8;
        let o = val as u8;
        assert((val >> 6) as u8 % 8 == (val / 64) % 8) by (bit_vector);
        assert((val >> 3) as u8 % 8 == (val / 8) % 8) by (bit_vector);
        assert(val as u8 % 8 == val % 8) by (bit_vector);
        let user = RoleBits::from_u8(high_water_mark(u));
        let group = RoleBits::from_u8(high_water_mark(g));
        let other = RoleBits::from_u8(high_water_mark(o));
        proof {
            assert(bits_of((u % 8) as nat) == bits_of((val / 64) as nat));
            assert(bits_of((g % 8) as nat) == bits_of((val / 8) as nat));
            assert(bits_of((o % 8) as nat) == bits_of(val as nat));
        }
        Ok(PathPermissions { user, group, other })
    }

    /// The permissions written as an octal number.
    pub fn from_string_octal(repr: &str) -> (r: Result<PathPermissions, Error>)
        ensures
            match u32_from_text_radix(repr@, 8) {
                Ok(v) => r == Ok::<PathPermissions, Error>(permissions_of(v)),
                Err(f) => r matches Err(Error::FileSystemError(m)) && m@ == "cannot parse u32 from "@
                    + repr@ + " base 8: "@ + number_failure_text(f),
            },
    {
        match u32_from_str_radix(repr, 8) {
            Ok(v) => PathPermissions::from_u32(v),
            Err(f) => {
                let mut m = owned("cannot parse u32 from ");
                m.append(repr);
                m.append(" base 8: ");
                m.append(number_failure_message(f));
                Err(Error::FileSystemError(m))
            },
        }
    }

    /// The user's permissions.
    pub fn user(&self) -> (r: Permission)
        ensures
            r.0 == self.user,
    {
        Permission(self.user)
    }

    /// The group's permissions.
    pub fn group(&self) -> (r: Permission)
        ensures
            r.0 == self.group,
    {
        Permission(self.group)
    }

    /// Everyone else's permissions.
    pub fn other(&self) -> (r: Permission)
        ensures
            r.0 == self.other,
    {
        Permission(self.other)
    }

    /// Sets the user's bits.
    pub fn set_user(&mut self, readable: bool, writable: bool, executable: bool)
        ensures
            *final(self) == (PathPermissions { user: RoleBits(readable, writable, executable), ..*old(self) }),
    {
        self.user = RoleBits(readable, writable, executable);
    }

    /// Sets the group's bits.
    pub fn set_group(&mut self, readable: bool, writable: bool, executable: bool)
        ensures
            *final(self) == (PathPermissions { group: RoleBits(readable, writable, executable), ..*old(self) }),
    {
        self.group = RoleBits(readable, writable, executable);
    }

    /// Sets everyone else's bits.
    pub fn set_other(&mut self, readable: bool, writable: bool, executable: bool)
        ensures
            *final(self) == (PathPermissions { other: RoleBits(readable, writable, executable), ..*old(self) }),
    {
        self.other = RoleBits(readable, writable, executable);
    }

    /// Sets the user's read bit.
    pub fn set_user_readable(&mut self, readable: bool)
        ensures
            *final(self) == (PathPermissions { user: RoleBits(readable, old(self).user.1, old(self).user.2), ..*old(self) }),
    {
        self.user.0 = readable;
    }

    /// Sets the user's write bit.
    pub fn set_user_writable(&mut self, writable: bool)
        ensures
            *final(self) == (PathPermissions { user: RoleBits(old(self).user.0, writable, old(self).user.2), ..*old(self) }),
    {
        self.user.1 = writable;
    }

    /// Sets the user's execute bit.
    pub fn set_user_executable(&mut self, executable: bool)
        ensures
            *final(self) == (PathPermissions { user: RoleBits(old(self).user.0, old(self).user.1, executable), ..*old(self) }),
    {
        self.user.2 = executable;
    }

    /// Sets the group's read bit.
    pub fn set_group_readable(&mut self, readable: bool)
        ensures
            *final(self) == (PathPermissions { group: RoleBits(readable, old(self).group.1, old(self).group.2), ..*old(self) }),
    {
        self.group.0 = readable;
    }

    /// Sets the group's write bit.
    pub fn set_group_writable(&mut self, writable: bool)
        ensures
            *final(self) == (PathPermissions { group: RoleBits(old(self).group.0, writable, old(self).group.2), ..*old(self) }),
    {
        self.group.1 = writable;
    }

    /// Sets the group's execute bit.
    pub fn set_group_executable(&mut self, executable: bool)
        ensures
            *final(self) == (PathPermissions { group: RoleBits(old(self).group.0, old(self).group.1, executable), ..*old(self) }),
    {
        self.group.2 = executable;
    }

    /// Sets everyone else's read bit.
    pub fn set_other_readable(&mut self, readable: bool)
        ensures
            *final(self) == (PathPermissions { other: RoleBits(readable, old(self).other.1, old(self).other.2), ..*old(self) }),
    {
        self.other.0 = readable;
    }

    /// Sets everyone else's write bit.
    pub fn set_other_writable(&mut self, writable: bool)
        ensures
            *final(self) == (PathPermissions { other: RoleBits(old(self).other.0, writable, old(self).other.2), ..*old(self) }),
    {
        self.other.1 = writable;
    }

    /// Sets everyone else's execute bit.
    pub fn set_other_executable(&mut self, executable: bool)
        ensures
            *final(self) == (PathPermissions { other: RoleBits(old(self).other.0, old(self).other.1, executable), ..*old(self) }),
    {
        self.other.2 = executable;
    }

    /// Whether the user or the group may execute.
    pub fn executable(&self) -> (r: bool)
        ensures
            r == (self.user.2 || self.group.2),
    {
        self.user().executable() || self.group().executable()
    }

    /// Whether the user or the group may read.
    pub fn readable(&self) -> (r: bool)
        ensures
            r == (self.user.0 || self.group.0),
    {
        self.user().readable() || self.group().readable()
    }

    /// Whether the user or the group may write.
    pub fn writable(&self) -> (r: bool)
        ensures
            r == (self.user.1 || self.group.1),
    {
        self.user().writable() || self.group().writable()
    }
}

impl Permission {
    /// Whether the read bit is set.
    pub fn readable(&self) -> (r: bool)
        ensures
            r == self.0.0,
    {
        self.0.0
    }

    /// Whether the write bit is set.
    pub fn writable(&self) -> (r: bool)
        ensures
            r == self.0.1,
    {
        self.0.1
    }

    /// Whether the execute bit is set.
    pub fn executable(&self) -> (r: bool)
        ensures
            r == self.0.2,
    {
        self.0.2
    }
}

} // verus!

verus! {

proof fn lemma_bits_roundtrip(b: RoleBits)
    ensures
        bits_of(bits_value(b)) == b,
{
}

proof fn lemma_value_digits(u: nat, g: nat, o: nat)
    requires
        u < 8,
        g < 8,
        o < 8,
    ensures
        (u * 64 + g * 8 + o) / 64 % 8 == u,
        (u * 64 + g * 8 + o) / 8 % 8 == g,
        (u * 64 + g * 8 + o) % 8 == o,
{
    assert((u * 64 + g * 8 + o) / 64 == u) by (nonlinear_arith)
        requires u < 8, g < 8, o < 8;
    assert((u * 64 + g * 8 + o) / 8 == u * 8 + g) by (nonlinear_arith)
        requires u < 8, g < 8, o < 8;
    assert((u * 8 + g) % 8 == g) by (nonlinear_arith)
        requires g < 8;
    assert((u * 64 + g * 8 + o) % 8 == o) by (nonlinear_arith)
        requires u < 8, g < 8, o < 8;
}

/// Reading permissions back from their mode number gives the same
/// permissions.
pub proof fn lemma_permissions_roundtrip(p: PathPermissions)
    ensures
        permissions_of(permissions_value(p) as u32) == p,
{
    let u = bits_value(p.user);
    let g = bits_value(p.group);
    let o = bits_value(p.other);
    lemma_value_digits(u, g, o);
    let v = (u * 64 + g * 8 + o) as u32;
    assert(bits_of((v / 64) as nat) == bits_of(u)) by {
        assert((v / 64) as nat % 8 == u);
    }
    assert(bits_of((v / 8) as nat) == bits_of(g)) by {
        assert((v / 8) as nat % 8 == g);
    }
    assert(bits_of(v as nat) == bits_of(o));
    lemma_bits_roundtrip(p.user);
    lemma_bits_roundtrip(p.group);
    lemma_bits_roundtrip(p.other);
}

/// The mode number of the permissions read from a mode is that mode's low
/// nine bits.
pub proof fn lemma_permissions_of_value(v: u32)
    ensures
        permissions_value(permissions_of(v)) == v % 512,
{
    let n = v as nat;
    assert(bits_value(bits_of(n / 64)) == (n / 64) % 8);
    assert(bits_value(bits_of(n / 8)) == (n / 8) % 8);
    assert(bits_value(bits_of(n)) == n % 8);
    assert(((n / 64) % 8) * 64 + ((n / 8) % 8) * 8 + n % 8 == n % 512) by (nonlinear_arith);
}

} // verus!
