//! Byte sequences for tests: counting up and wrapping.
use vstd::prelude::*;

verus! {

/// The byte at position `n` of `seq_bytes`: `n` itself up to 255, and past
/// that `n` modulo 255.
pub open spec fn seq_byte(n: nat) -> u8 {
    if n > 255 { (n % 255) as u8 } else { n as u8 }
}

/// `count` bytes counting up from zero: each position `n` holds `n` up to
/// 255, and `n` modulo 255 past that.
pub fn seq_bytes(count: usize) -> (r: Vec<u8>)
    ensures
        r@.len() == count,
        forall|n: int| 0 <= n < count ==> #[trigger] r@[n] == seq_byte(n as nat),
{
    let mut r: Vec<u8> = Vec::new();
    let mut n: usize = 0;
    while n < count
        invariant
            n <= count,
            r@.len() == n,
            forall|k: int| 0 <= k < n ==> #[trigger] r@[k] == seq_byte(k as nat),
        decreases count - n,
    {
        let b: u8 = if n > 255 { (n % 255) as u8 } else { n as u8 };
        r.push(b);
        n = n + 1;
    }
    r
}

} // verus!
