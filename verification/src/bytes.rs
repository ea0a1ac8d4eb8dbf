//! Little-endian integer and byte-block reads over an in-memory byte source.

use vstd::prelude::*;

verus! {

/// The little-endian 16-bit value held at position `i` of `s`.
pub open spec fn u16_le_at(s: Seq<u8>, i: int) -> u16
    recommends
        0 <= i,
        i + 2 <= s.len(),
{
    (s[i] + s[i + 1] * 0x100) as u16
}

/// The little-endian 32-bit value held at position `i` of `s`.
pub open spec fn u32_le_at(s: Seq<u8>, i: int) -> u32
    recommends
        0 <= i,
        i + 4 <= s.len(),
{
    (s[i] + s[i + 1] * 0x100 + s[i + 2] * 0x10000 + s[i + 3] * 0x1000000) as u32
}

/// Reads the little-endian 16-bit value at `pos`.
pub fn u16_at(data: &Vec<u8>, pos: usize) -> (r: u16)
    requires
        pos + 2 <= data@.len(),
    ensures
        r == u16_le_at(data@, pos as int),
{
    // Calling len here tells the verifier the source length fits in usize,
    // which bounds the positions read below.
    let _bound = data.len();
    let b0 = data[pos];
    let b1 = data[pos + 1];
    b0 as u16 + (b1 as u16) * 0x100
}

/// Reads the little-endian 32-bit value at `pos`.
pub fn u32_at(data: &Vec<u8>, pos: usize) -> (r: u32)
    requires
        pos + 4 <= data@.len(),
    ensures
        r == u32_le_at(data@, pos as int),
{
    // As above: len bounds the positions read below.
    let _bound = data.len();
    let b0 = data[pos];
    let b1 = data[pos + 1];
    let b2 = data[pos + 2];
    let b3 = data[pos + 3];
    b0 as u32 + (b1 as u32) * 0x100 + (b2 as u32) * 0x10000 + (b3 as u32) * 0x1000000
}

/// Copies the `n` bytes starting at `from` into a fresh vector.
pub fn bytes_at(data: &Vec<u8>, from: usize, n: usize) -> (r: Vec<u8>)
    requires
        from + n <= data@.len(),
    ensures
        r@ == data@.subrange(from as int, from as int + n as int),
{
    let dlen = data.len();
    let mut out: Vec<u8> = Vec::new();
    let mut i: usize = 0;
    while i < n
        invariant
            dlen == data@.len(),
            from + n <= data@.len(),
            i <= n,
            out@ == data@.subrange(from as int, from as int + i as int),
        decreases n - i,
    {
        out.push(data[from + i]);
        proof {
            assert(out@ =~= data@.subrange(from as int, from as int + (i + 1) as int));
        }
        i = i + 1;
    }
    out
}

} // verus!
