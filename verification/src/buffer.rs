//! `FileBuffer`: the bookkeeping of a file being read or written through a
//! buffer (its position, its length and the bytes seen), and where a seek
//! lands.  The caller holds the open file and performs the reads, writes and
//! seeks that these decisions call for.
use vstd::prelude::*;

use crate::path::Path;
use crate::text::{decimal, owned, push_char, push_decimal};

verus! {

/// Where to seek: from the start, from the end, or from the current position
/// (as `std::io::SeekFrom`).
#[derive(Debug, Clone, Copy, PartialEq, Eq, Structural)]
pub enum SeekPos {
    Start(u64),
    End(i64),
    Current(i64),
}

/// The decimal text of an integer, with a leading `-` when it is negative.
pub open spec fn signed_decimal(i: int) -> Seq<char> {
    if i < 0 { seq!['-'] + decimal((-i) as nat) } else { decimal(i as nat) }
}

/// The message of a failed integer conversion (`TryFromIntError`).
pub open spec fn conversion_failure() -> Seq<char> {
    "out of range integral type conversion attempted"@
}

/// Where a seek from position `index` in a buffer of `length` bytes lands,
/// or the message of why it cannot.
pub open spec fn seek_target(index: usize, length: usize, pos: SeekPos) -> Result<usize, Seq<char>> {
    match pos {
        SeekPos::Start(i) => if i <= usize::MAX {
            Ok(i as usize)
        } else {
            Err(decimal(i as nat) + " > "@ + decimal(usize::MAX as nat) + ": "@ + conversion_failure())
        },
        SeekPos::End(i) => if length > i64::MAX {
            Err(signed_decimal(i as int) + " to i64: "@ + conversion_failure())
        } else if i > length {
            Err(signed_decimal(i as int) + " > "@ + decimal(length as nat))
        } else {
            let a: int = if i < 0 { -i } else { i as int };
            let delta = length - a;
            if delta < 0 {
                Err("cannot seek to "@ + signed_decimal(a) + " Δ "@ + signed_decimal(delta) + " < 0"@)
            } else {
                Ok(delta as usize)
            }
        },
        SeekPos::Current(plus) => if length > i64::MAX {
            Err(decimal(length as nat) + " to i64: "@ + conversion_failure())
        } else if index > i64::MAX {
            Err(decimal(index as nat) + " to i64: "@ + conversion_failure())
        } else {
            let delta = index + plus;
            if delta < 0 || delta > length {
                Err("cannot seek to "@ + signed_decimal(plus as int) + " out-of-bounds"@)
            } else {
                Ok(delta as usize)
            }
        },
    }
}

/// Whether the arithmetic of a seek stays within `i64` (the computation
/// overflows otherwise).
pub open spec fn seek_in_range(index: usize, pos: SeekPos) -> bool {
    match pos {
        SeekPos::Start(_) => true,
        SeekPos::End(i) => i != i64::MIN,
        SeekPos::Current(plus) => index > i64::MAX || (i64::MIN <= index + plus <= i64::MAX),
    }
}

/// Appends the decimal text of `i`, with `-` when it is negative.
pub fn push_signed(s: &mut String, i: i64)
    ensures
        final(s)@ == old(s)@ + signed_decimal(i as int),
{
    if i < 0 {
        push_char(s, '-');
        let m: u64 = if i == i64::MIN { 9223372036854775808u64 } else { (-i) as u64 };
        push_decimal(s, m);
    } else {
        push_decimal(s, i as u64);
    }
}

/// The bookkeeping of a file opened through a buffer.
#[derive(Debug)]
pub struct FileBuffer {
    pub path: Path,
    pub index: usize,
    pub length: usize,
    pub data: Vec<u8>,
}

impl FileBuffer {
    /// A buffer at the start of an empty file at `path` (opened for reading).
    pub fn open_read(path: Path) -> (r: FileBuffer)
        ensures
            r.path@ == path@,
            r.index == 0,
            r.length == 0,
            r.data@.len() == 0,
    {
        FileBuffer { path, index: 0, length: 0, data: Vec::new() }
    }

    /// A buffer over the `data` already in the file at `path`, positioned at
    /// its end (opened for writing).
    pub fn open_write(path: Path, data: Vec<u8>) -> (r: FileBuffer)
        ensures
            r.path@ == path@,
            r.index == data@.len(),
            r.length == data@.len(),
            r.data@ == data@,
    {
        let length = data.len();
        FileBuffer { path, index: length, length, data }
    }

    /// The position in the file.
    pub fn index(&self) -> (r: usize)
        ensures
            r == self.index,
    {
        self.index
    }

    /// The path of the file.
    pub fn path(&self) -> (r: Path)
        ensures
            r@ == self.path@,
    {
        self.path.clone()
    }

    /// The bytes seen so far.
    pub fn data(&self) -> (r: Vec<u8>)
        ensures
            r@ == self.data@,
    {
        let mut r: Vec<u8> = Vec::new();
        let mut i: usize = 0;
        while i < self.data.len()
            invariant
                i <= self.data@.len(),
                r@ == self.data@.take(i as int),
            decreases self.data.len() - i,
        {
            r.push(self.data[i]);
            assert(r@ =~= self.data@.take(i + 1));
            i = i + 1;
        }
        assert(self.data@.take(self.data@.len() as int) =~= self.data@);
        r
    }

    /// The length of the file.
    pub fn len(&self) -> (r: usize)
        ensures
            r == self.length,
    {
        self.length
    }

    /// Records a read of `count` bytes into `buf`: the whole of `buf` is
    /// appended to the data, position and length advance by `count`, and the
    /// data is then cut or padded with zeros to the length.
    pub fn record_read(&mut self, buf: &[u8], count: usize)
        requires
            old(self).index + count <= usize::MAX,
            old(self).length + count <= usize::MAX,
        ensures
            final(self).path@ == old(self).path@,
            final(self).index == old(self).index + count,
            final(self).length == old(self).length + count,
            final(self).data@ == if old(self).data@.len() + buf@.len() >= final(self).length {
                (old(self).data@ + buf@).take(final(self).length as int)
            } else {
                (old(self).data@ + buf@) + Seq::new(
                    (final(self).length - old(self).data@.len() - buf@.len()) as nat,
                    |_i: int| 0u8,
                )
            },
    {
        let ghost before = self.data@;
        let mut i: usize = 0;
        while i < buf.len()
            invariant
                i <= buf@.len(),
                self.data@ == before + buf@.take(i as int),
                self.index == old(self).index,
                self.length == old(self).length,
                self.path@ == old(self).path@,
            decreases buf.len() - i,
        {
            self.data.push(buf[i]);
            assert(before + buf@.take(i + 1) =~= (before + buf@.take(i as int)).push(buf@[i as int]));
            i = i + 1;
        }
        assert(buf@.take(buf@.len() as int) =~= buf@);
        self.index = self.index + count;
        self.length = self.length + count;
        let ghost joined = self.data@;
        if self.data.len() >= self.length {
            self.data.truncate(self.length);
        } else {
            let n = self.length - self.data.len();
            let mut k: usize = 0;
            while k < n
                invariant
                    k <= n,
                    n == self.length - joined.len(),
                    self.data@ == joined + Seq::new(k as nat, |_i: int| 0u8),
                    self.index == old(self).index + count,
                    self.length == old(self).length + count,
                    self.path@ == old(self).path@,
                decreases n - k,
            {
                self.data.push(0u8);
                assert(joined + Seq::new((k + 1) as nat, |_i: int| 0u8) =~= (joined + Seq::new(k as nat, |_i: int| 0u8)).push(0u8));
                k = k + 1;
            }
        }
    }

    /// Records a write of `count` bytes from `buf`: the whole of `buf` is
    /// appended to the data, and position and length advance by `count`.
    pub fn record_write(&mut self, buf: &[u8], count: usize)
        requires
            old(self).index + count <= usize::MAX,
            old(self).length + count <= usize::MAX,
        ensures
            final(self).path@ == old(self).path@,
            final(self).index == old(self).index + count,
            final(self).length == old(self).length + count,
            final(self).data@ == old(self).data@ + buf@,
    {
        let ghost before = self.data@;
        let mut i: usize = 0;
        while i < buf.len()
            invariant
                i <= buf@.len(),
                self.data@ == before + buf@.take(i as int),
                self.index == old(self).index,
                self.length == old(self).length,
                self.path@ == old(self).path@,
            decreases buf.len() - i,
        {
            self.data.push(buf[i]);
            assert(before + buf@.take(i + 1) =~= (before + buf@.take(i as int)).push(buf@[i as int]));
            i = i + 1;
        }
        assert(buf@.take(buf@.len() as int) =~= buf@);
        self.index = self.index + count;
        self.length = self.length + count;
    }

    /// Whether the arithmetic of seeking to `pos` stays within `i64`
    /// (`seek` needs it; the computation overflows otherwise).
    pub fn seek_computable(&self, pos: SeekPos) -> (r: bool)
        ensures
            r == seek_in_range(self.index, pos),
    {
        match pos {
            SeekPos::Start(_) => true,
            SeekPos::End(i) => i != i64::MIN,
            SeekPos::Current(plus) => {
                if self.index as u64 > i64::MAX as u64 {
                    true
                } else {
                    let index = self.index as i64;
                    if plus >= 0 {
                        index <= i64::MAX - plus
                    } else {
                        index >= i64::MIN - plus
                    }
                }
            },
        }
    }

    /// Moves the position as `pos` says, or tells why it cannot (leaving the
    /// position as it was).  On success the position is returned; the caller
    /// then seeks the file itself.
    pub fn seek(&mut self, pos: SeekPos) -> (r: Result<u64, String>)
        requires
            seek_in_range(old(self).index, pos),
        ensures
            final(self).path@ == old(self).path@,
            final(self).length == old(self).length,
            final(self).data@ == old(self).data@,
            match seek_target(old(self).index, old(self).length, pos) {
                Ok(i) => r == Ok::<u64, String>(i as u64) && final(self).index == i,
                Err(m) => r matches Err(e) && e@ == m && final(self).index == old(self).index,
            },
    {
        match seek_to(self.index, self.length, pos) {
            Ok(i) => {
                self.index = i;
                Ok(i as u64)
            },
            Err(m) => Err(m),
        }
    }
}

/// Computes `seek_target`.
fn seek_to(index: usize, length: usize, pos: SeekPos) -> (r: Result<usize, String>)
    requires
        seek_in_range(index, pos),
    ensures
        match seek_target(index, length, pos) {
            Ok(i) => r == Ok::<usize, String>(i),
            Err(m) => r matches Err(e) && e@ == m,
        },
{
    match pos {
        SeekPos::Start(i) => {
            if i <= usize::MAX as u64 {
                Ok(i as usize)
            } else {
                let mut m = String::new();
                push_decimal(&mut m, i);
                m.append(" > ");
                push_decimal(&mut m, usize::MAX as u64);
                m.append(": ");
                m.append("out of range integral type conversion attempted");
                Err(m)
            }
        },
        SeekPos::End(i) => {
            if length as u64 > i64::MAX as u64 {
                let mut m = String::new();
                push_signed(&mut m, i);
                m.append(" to i64: ");
                m.append("out of range integral type conversion attempted");
                return Err(m);
            }
            let len = length as i64;
            if i > len {
                let mut m = String::new();
                push_signed(&mut m, i);
                m.append(" > ");
                push_decimal(&mut m, length as u64);
                return Err(m);
            }
            let a: i64 = if i < 0 { -i } else { i };
            let delta = len - a;
            if delta < 0 {
                let mut m = owned("cannot seek to ");
                push_signed(&mut m, a);
                m.append(" Δ ");
                push_signed(&mut m, delta);
                m.append(" < 0");
                return Err(m);
            }
            Ok(delta as usize)
        },
        SeekPos::Current(plus) => {
            if length as u64 > i64::MAX as u64 {
                let mut m = String::new();
                push_decimal(&mut m, length as u64);
                m.append(" to i64: ");
                m.append("out of range integral type conversion attempted");
                return Err(m);
            }
            if index as u64 > i64::MAX as u64 {
                let mut m = String::new();
                push_decimal(&mut m, index as u64);
                m.append(" to i64: ");
                m.append("out of range integral type conversion attempted");
                return Err(m);
            }
            let len = length as i64;
            let delta = index as i64 + plus;
            if delta < 0 || delta > len {
                let mut m = owned("cannot seek to ");
                push_signed(&mut m, plus);
                m.append(" out-of-bounds");
                return Err(m);
            }
            Ok(delta as usize)
        },
    }
}

} // verus!

verus! {

/// Seeking from the start lands where it says; seeking from the current
/// position by nothing stays; seeking from the end by nothing lands at the
/// end (for positions and lengths that fit in `i64`).
pub proof fn lemma_seek_landmarks(index: usize, length: usize, i: u64)
    ensures
        i <= usize::MAX ==> seek_target(index, length, SeekPos::Start(i)) == Ok::<usize, Seq<char>>(i as usize),
        index <= length && length <= i64::MAX ==> seek_target(index, length, SeekPos::Current(0)) == Ok::<usize, Seq<char>>(index),
        length <= i64::MAX ==> seek_target(index, length, SeekPos::End(0)) == Ok::<usize, Seq<char>>(length),
{
}

/// A seek never lands past the end, except from the start.
pub proof fn lemma_seek_within(index: usize, length: usize, pos: SeekPos)
    ensures
        !(pos is Start) ==> (seek_target(index, length, pos) matches Ok(i) ==> i <= length),
{
}

/// Seeking moves by the offset given: from the current position by a signed
/// offset, from the end back by the offset's size, and from the start to the
/// offset, whenever the target lies within the buffer and the numbers fit in
/// `i64`; a target before the start or past the end of the buffer is refused.
pub proof fn lemma_seek_moves_by_offset(index: usize, length: usize, plus: i64, back: i64)
    requires
        index <= i64::MAX,
        length <= i64::MAX,
    ensures
        0 <= index + plus <= length ==> seek_target(index, length, SeekPos::Current(plus))
            == Ok::<usize, Seq<char>>((index + plus) as usize),
        (index + plus < 0 || index + plus > length) ==> seek_target(index, length, SeekPos::Current(plus)) is Err,
        0 <= back <= length ==> seek_target(index, length, SeekPos::End(back))
            == Ok::<usize, Seq<char>>((length - back) as usize),
        -(length as int) <= back < 0 ==> seek_target(index, length, SeekPos::End(back))
            == Ok::<usize, Seq<char>>((length + back) as usize),
{
}

} // verus!
