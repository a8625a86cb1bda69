//! `OpenOptions`: how to open a file (read, write, create, append, mode),
//! built by chained setters.  Opening the file is the caller's part.
use vstd::prelude::*;

use crate::text::{owned, push_char};

verus! {

/// How to open a file.
#[derive(Debug, Clone, Copy, PartialEq, Eq, Structural)]
pub struct OpenOptions {
    pub f_read: bool,
    pub f_write: bool,
    pub f_create: bool,
    pub f_append: bool,
    pub f_mode: u32,
}

/// The octal digit character of `d < 8`.
pub open spec fn octal_char(d: nat) -> char {
    if d == 0 { '0' }
    else if d == 1 { '1' }
    else if d == 2 { '2' }
    else if d == 3 { '3' }
    else if d == 4 { '4' }
    else if d == 5 { '5' }
    else if d == 6 { '6' }
    else { '7' }
}

/// The octal representation of `n`, without leading zeros.
pub open spec fn octal(n: nat) -> Seq<char>
    decreases n,
{
    if n < 8 {
        seq![octal_char(n)]
    } else {
        octal(n / 8).push(octal_char(n % 8))
    }
}

/// `s` right-aligned in a field of `width` characters (spaces before it).
pub open spec fn right_aligned(s: Seq<char>, width: nat) -> Seq<char> {
    if s.len() >= width { s } else { Seq::new((width - s.len()) as nat, |_i: int| ' ') + s }
}

/// The names of the options that are set, in order, with the mode (octal,
/// right-aligned in forty columns) when it is not zero.
pub open spec fn option_names(o: OpenOptions) -> Seq<Seq<char>> {
    let a: Seq<Seq<char>> = if o.f_read { seq!["read"@] } else { seq![] };
    let b = if o.f_write { a.push("write"@) } else { a };
    let c = if o.f_create { b.push("create"@) } else { b };
    let d = if o.f_append { c.push("append"@) } else { c };
    if o.f_mode > 0 { d.push("mode:"@ + right_aligned(octal(o.f_mode as nat), 40)) } else { d }
}

/// Texts joined with `sep` between them.
pub open spec fn joined_with(parts: Seq<Seq<char>>, sep: Seq<char>) -> Seq<char>
    decreases parts.len(),
{
    if parts.len() == 0 {
        Seq::empty()
    } else if parts.len() == 1 {
        parts[0]
    } else {
        joined_with(parts.drop_last(), sep) + sep + parts.last()
    }
}

/// How options are shown: the names of those set, between brackets and
/// separated by commas.
pub open spec fn options_text(o: OpenOptions) -> Seq<char> {
    "["@ + joined_with(option_names(o), ","@) + "]"@
}

/// Appends the octal digit of `d < 8`.
fn push_octal_digit(s: &mut String, d: u32)
    requires
        d < 8,
    ensures
        final(s)@ == old(s)@.push(octal_char(d as nat)),
{
    let c = if d == 0 { '0' }
        else if d == 1 { '1' }
        else if d == 2 { '2' }
        else if d == 3 { '3' }
        else if d == 4 { '4' }
        else if d == 5 { '5' }
        else if d == 6 { '6' }
        else { '7' };
    push_char(s, c);
}

/// Appends the octal representation of `n`.
fn push_octal(s: &mut String, n: u32)
    ensures
        final(s)@ == old(s)@ + octal(n as nat),
    decreases n,
{
    if n < 8 {
        push_octal_digit(s, n);
        assert(octal(n as nat) =~= seq![octal_char(n as nat)]);
    } else {
        push_octal(s, n / 8);
        push_octal_digit(s, n % 8);
        assert(octal(n as nat) =~= octal((n / 8) as nat).push(octal_char((n % 8) as nat)));
    }
}

/// The octal representation of `n`, right-aligned in forty columns.
fn mode_text(n: u32) -> (r: String)
    ensures
        r@ == right_aligned(octal(n as nat), 40),
{
    let mut digits = String::new();
    push_octal(&mut digits, n);
    assert(digits@ =~= octal(n as nat));
    let len = digits.as_str().unicode_len();
    let mut r = String::new();
    if len < 40 {
        let mut i: usize = 0;
        while i < 40 - len
            invariant
                len < 40,
                i <= 40 - len,
                r@ == Seq::new(i as nat, |_i: int| ' '),
            decreases 40 - len - i,
        {
            push_char(&mut r, ' ');
            assert(r@ =~= Seq::new((i + 1) as nat, |_i: int| ' '));
            i = i + 1;
        }
    }
    r.append(digits.as_str());
    assert(r@ =~= right_aligned(octal(n as nat), 40));
    r
}

impl OpenOptions {
    /// Nothing set, mode `0o600`.
    pub fn new() -> (r: OpenOptions)
        ensures
            r == (OpenOptions { f_read: false, f_write: false, f_create: false, f_append: false, f_mode: 0o600 }),
    {
        OpenOptions { f_read: false, f_create: false, f_append: false, f_write: false, f_mode: 0o600 }
    }

    /// Sets whether to read.
    pub fn read(&mut self, read: bool) -> (r: &mut OpenOptions)
        ensures
            *r == (OpenOptions { f_read: read, ..*old(self) }),
            *final(self) == *final(r),
    {
        self.f_read = read;
        self
    }

    /// Sets whether to create.
    pub fn create(&mut self, create: bool) -> (r: &mut OpenOptions)
        ensures
            *r == (OpenOptions { f_create: create, ..*old(self) }),
            *final(self) == *final(r),
    {
        self.f_create = create;
        self
    }

    /// Sets whether to append.
    pub fn append(&mut self, append: bool) -> (r: &mut OpenOptions)
        ensures
            *r == (OpenOptions { f_append: append, ..*old(self) }),
            *final(self) == *final(r),
    {
        self.f_append = append;
        self
    }

    /// Sets whether to write.
    pub fn write(&mut self, write: bool) -> (r: &mut OpenOptions)
        ensures
            *r == (OpenOptions { f_write: write, ..*old(self) }),
            *final(self) == *final(r),
    {
        self.f_write = write;
        self
    }

    /// Sets the mode of a created file.
    pub fn mode(&mut self, mode: u32) -> (r: &mut OpenOptions)
        ensures
            *r == (OpenOptions { f_mode: mode, ..*old(self) }),
            *final(self) == *final(r),
    {
        self.f_mode = mode;
        self
    }

    /// Whether opening a path applies the mode: only where the path exists
    /// and the mode is not zero.
    pub fn applies_mode(&self, path_exists: bool) -> (r: bool)
        ensures
            r == (path_exists && self.f_mode > 0),
    {
        path_exists && self.f_mode > 0
    }

    /// How these options are shown: the names of those set, between brackets
    /// and separated by commas.
    pub fn to_string(&self) -> (r: String)
        ensures
            r@ == options_text(*self),
    {
        let mut parts: Vec<String> = Vec::new();
        if self.f_read {
            parts.push(owned("read"));
        }
        if self.f_write {
            parts.push(owned("write"));
        }
        if self.f_create {
            parts.push(owned("create"));
        }
        if self.f_append {
            parts.push(owned("append"));
        }
        if self.f_mode > 0 {
            let mut m = owned("mode:");
            let t = mode_text(self.f_mode);
            m.append(t.as_str());
            parts.push(m);
        }
        assert(parts@.map_values(|p: String| p@) =~= option_names(*self));
        let mut r = owned("[");
        let mut i: usize = 0;
        while i < parts.len()
            invariant
                i <= parts@.len(),
                r@ == "["@ + joined_with(parts@.map_values(|p: String| p@).take(i as int), ","@),
            decreases parts.len() - i,
        {
            let ghost names = parts@.map_values(|p: String| p@);
            assert(names.take(i + 1).drop_last() =~= names.take(i as int));
            if i > 0 {
                r.append(",");
            }
            r.append(parts[i].as_str());
            i = i + 1;
        }
        assert(parts@.map_values(|p: String| p@).take(parts@.len() as int) =~= parts@.map_values(|p: String| p@));
        r.append("]");
        r
    }
}

} // verus!
