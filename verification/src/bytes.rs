//! Small byte-buffer helpers shared by the frame and queue modules.
use vstd::prelude::*;

verus! {

/// Copy `n` leading bytes of `src` over the start of `dst`; the rest of `dst` is kept.
pub fn copy_prefix(dst: &mut [u8], src: &[u8], n: usize)
    requires
        n <= old(dst)@.len(),
        n <= src@.len(),
    ensures
        final(dst)@.len() == old(dst)@.len(),
        forall|i: int| 0 <= i < final(dst)@.len() ==> final(dst)@[i] == if i < n { src@[i] } else { old(dst)@[i] },
{
    let mut i: usize = 0;
    while i < n
        invariant
            i <= n,
            n <= dst@.len(),
            n <= src@.len(),
            dst@.len() == old(dst)@.len(),
            forall|k: int| 0 <= k < dst@.len() ==> dst@[k] == if k < i { src@[k] } else { old(dst)@[k] },
        decreases n - i,
    {
        dst[i] = src[i];
        i += 1;
    }
}

/// A fresh vector holding the first `n` bytes of `src`.
pub fn prefix_vec(src: &[u8], n: usize) -> (v: Vec<u8>)
    requires
        n <= src@.len(),
    ensures
        v@ == src@.subrange(0, n as int),
{
    let mut v: Vec<u8> = Vec::new();
    let mut i: usize = 0;
    while i < n
        invariant
            i <= n <= src@.len(),
            v@ == src@.subrange(0, i as int),
        decreases n - i,
    {
        v.push(src[i]);
        i += 1;
        assert(v@ =~= src@.subrange(0, i as int));
    }
    v
}

/// Saturating increment of a counter.
pub open spec fn sat_inc(a: u32) -> u32 {
    if a == u32::MAX {
        a
    } else {
        (a + 1) as u32
    }
}

/// Wrapping increment of a counter.
pub open spec fn wrap_inc(a: u32) -> u32 {
    if a == u32::MAX {
        0
    } else {
        (a + 1) as u32
    }
}

/// The smaller of two integers.
pub open spec fn min_int(a: int, b: int) -> int {
    if a < b {
        a
    } else {
        b
    }
}

/// Big-endian 16-bit value of two bytes.
pub open spec fn be16(hi: u8, lo: u8) -> u16 {
    (hi * 256 + lo) as u16
}

/// Little-endian 16-bit value of two bytes.
pub open spec fn le16(lo: u8, hi: u8) -> u16 {
    (hi * 256 + lo) as u16
}

} // verus!
