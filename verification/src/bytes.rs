//! Little-endian field access and in-place byte copies on packet buffers.

use vstd::prelude::*;

verus! {

/// The little-endian 16-bit value stored at `s[i..i + 2]`.
pub open spec fn le16_at(s: Seq<u8>, i: int) -> int {
    s[i] + 256 * s[i + 1]
}

/// The two little-endian bytes of `v`.
pub open spec fn le16_bytes(v: u16) -> Seq<u8> {
    seq![(v % 256) as u8, (v / 256) as u8]
}

/// The four little-endian bytes of `v`.
pub open spec fn le32_bytes(v: u32) -> Seq<u8> {
    seq![(v % 256) as u8, ((v / 256) % 256) as u8, ((v / 65536) % 256) as u8, (v / 16777216) as u8]
}

/// `s` with `b` written over it starting at `off`.
pub open spec fn splice(s: Seq<u8>, off: int, b: Seq<u8>) -> Seq<u8> {
    s.take(off) + b + s.skip(off + b.len())
}

/// Reads the little-endian 16-bit value at `s[i..i + 2]`.
pub fn read_le16(s: &[u8], i: usize) -> (r: u16)
    requires
        i + 1 < s@.len(),
    ensures
        r == le16_at(s@, i as int),
{
    (s[i] as u16) + (s[i + 1] as u16) * 256
}

/// Writes `v` little-endian at `out[off..off + 2]`.
pub fn write_le16(out: &mut [u8], off: usize, v: u16)
    requires
        off + 2 <= old(out)@.len(),
    ensures
        final(out)@ == splice(old(out)@, off as int, le16_bytes(v)),
        final(out)@.len() == old(out)@.len(),
{
    out[off] = (v % 256) as u8;
    out[off + 1] = (v / 256) as u8;
    assert(final(out)@ =~= splice(old(out)@, off as int, le16_bytes(v)));
}

/// Copies `src` into `out` starting at `off`.
pub fn copy_into(out: &mut [u8], off: usize, src: &[u8])
    requires
        off + src@.len() <= old(out)@.len(),
    ensures
        final(out)@ == splice(old(out)@, off as int, src@),
        final(out)@.len() == old(out)@.len(),
{
    let ghost start = out@;
    let n = src.len();
    let total = out.len();
    assert(total == out@.len());
    let mut i: usize = 0;
    while i < n
        invariant
            n == src@.len(),
            off + n <= out@.len(),
            out@.len() == start.len(),
            out@.len() <= usize::MAX,
            i <= n,
            out@ =~= splice(start, off as int, src@.take(i as int)),
        decreases n - i,
    {
        out[off + i] = src[i];
        i = i + 1;
        assert(out@ =~= splice(start, off as int, src@.take(i as int)));
    }
    assert(src@.take(n as int) =~= src@);
}

} // verus!
