//! Little-endian readers over byte arenas, and byte packing for the 32-bit
//! payload registers.  Register layouts are a wire-exact memory contract, so
//! every multi-byte value is reassembled explicitly rather than through any
//! host-language aggregate layout.

use vstd::prelude::*;

verus! {

/// The 16-bit little-endian value at `b[i..i+2]`.
pub open spec fn spec_le16(b: Seq<u8>, i: int) -> u16
    recommends
        0 <= i,
        i + 2 <= b.len(),
{
    (b[i] + b[i + 1] * 0x100) as u16
}

/// The 32-bit little-endian value at `b[i..i+4]`.
pub open spec fn spec_le32(b: Seq<u8>, i: int) -> u32
    recommends
        0 <= i,
        i + 4 <= b.len(),
{
    (b[i] + b[i + 1] * 0x100 + b[i + 2] * 0x1_0000 + b[i + 3] * 0x100_0000) as u32
}

/// The 64-bit little-endian value at `b[i..i+8]`.
pub open spec fn spec_le64(b: Seq<u8>, i: int) -> u64
    recommends
        0 <= i,
        i + 8 <= b.len(),
{
    (spec_le32(b, i) + spec_le32(b, i + 4) * 0x1_0000_0000) as u64
}

/// Reads the 16-bit little-endian value at `b[i..i+2]`.
pub fn read_le_u16(b: &[u8], i: usize) -> (r: u16)
    requires
        i + 2 <= b@.len(),
    ensures
        r == spec_le16(b@, i as int),
{
    b[i] as u16 + b[i + 1] as u16 * 0x100
}

/// Reads the 32-bit little-endian value at `b[i..i+4]`.
pub fn read_le_u32(b: &[u8], i: usize) -> (r: u32)
    requires
        i + 4 <= b@.len(),
    ensures
        r == spec_le32(b@, i as int),
{
    b[i] as u32 + b[i + 1] as u32 * 0x100 + b[i + 2] as u32 * 0x1_0000 + b[i + 3] as u32
        * 0x100_0000
}

/// Reads the 64-bit little-endian value at `b[i..i+8]`.
pub fn read_le_u64(b: &[u8], i: usize) -> (r: u64)
    requires
        i + 8 <= b@.len(),
    ensures
        r == spec_le64(b@, i as int),
{
    let n: usize = b.len();
    assert(i + 8 <= n);
    let low = read_le_u32(b, i);
    let high = read_le_u32(b, i + 4);
    low as u64 + high as u64 * 0x1_0000_0000
}

/// Position of the first `b` in `r[i..end)`, scanning forward.
pub open spec fn spec_find_byte(r: Seq<u8>, b: u8, i: int, end: int) -> Option<int>
    recommends
        0 <= i,
        end <= r.len(),
    decreases end - i,
{
    if i >= end {
        None
    } else if r[i] == b {
        Some(i)
    } else {
        spec_find_byte(r, b, i + 1, end)
    }
}

/// Finds the first occurrence of `b` in `r[from..end)`.
pub fn find_byte(r: &[u8], b: u8, from: usize, end: usize) -> (o: Option<usize>)
    requires
        from <= end,
        end <= r@.len(),
    ensures
        match o {
            Some(p) => spec_find_byte(r@, b, from as int, end as int) == Some(p as int) && from
                <= p < end,
            None => spec_find_byte(r@, b, from as int, end as int) is None,
        },
{
    let mut i: usize = from;
    while i < end
        invariant
            from <= i <= end,
            end <= r@.len(),
            spec_find_byte(r@, b, from as int, end as int) == spec_find_byte(
                r@,
                b,
                i as int,
                end as int,
            ),
        decreases end - i,
    {
        if r[i] == b {
            return Some(i);
        }
        i = i + 1;
    }
    None
}

/// Byte `k` (little-endian position) of a 32-bit payload register.
pub open spec fn u32_byte(d: u32, k: int) -> u8
    recommends
        0 <= k < 4,
{
    if k == 0 {
        (d % 0x100) as u8
    } else if k == 1 {
        ((d / 0x100) % 0x100) as u8
    } else if k == 2 {
        ((d / 0x1_0000) % 0x100) as u8
    } else {
        ((d / 0x100_0000) % 0x100) as u8
    }
}

/// The 32-bit payload register holding the four bytes, little-endian.
pub open spec fn u32_of_bytes(b0: u8, b1: u8, b2: u8, b3: u8) -> u32 {
    (b0 + b1 * 0x100 + b2 * 0x1_0000 + b3 * 0x100_0000) as u32
}

proof fn lemma_bytes_div_mod(d: u32, b0: u8, b1: u8, b2: u8, b3: u8)
    by (bit_vector)
    requires
        d == b0 + b1 * 0x100 + b2 * 0x1_0000 + b3 * 0x100_0000,
    ensures
        d % 0x100 == b0,
        (d / 0x100) % 0x100 == b1,
        (d / 0x1_0000) % 0x100 == b2,
        (d / 0x100_0000) % 0x100 == b3,
{
}

/// Law: packing four bytes into a payload register and taking a byte back
/// out returns that byte.
pub proof fn lemma_u32_of_bytes_roundtrip(b0: u8, b1: u8, b2: u8, b3: u8)
    ensures
        u32_byte(u32_of_bytes(b0, b1, b2, b3), 0) == b0,
        u32_byte(u32_of_bytes(b0, b1, b2, b3), 1) == b1,
        u32_byte(u32_of_bytes(b0, b1, b2, b3), 2) == b2,
        u32_byte(u32_of_bytes(b0, b1, b2, b3), 3) == b3,
{
    let d = u32_of_bytes(b0, b1, b2, b3);
    assert(d == b0 + b1 * 0x100 + b2 * 0x1_0000 + b3 * 0x100_0000);
    lemma_bytes_div_mod(d, b0, b1, b2, b3);
}

/// Packs four bytes into a 32-bit payload register, little-endian.
pub fn pack_u32_of_bytes(b0: u8, b1: u8, b2: u8, b3: u8) -> (d: u32)
    ensures
        d == u32_of_bytes(b0, b1, b2, b3),
{
    b0 as u32 + b1 as u32 * 0x100 + b2 as u32 * 0x1_0000 + b3 as u32 * 0x100_0000
}

/// Extracts byte `k` (little-endian position) of a 32-bit payload register.
pub fn extract_u32_byte(d: u32, k: usize) -> (b: u8)
    requires
        k < 4,
    ensures
        b == u32_byte(d, k as int),
{
    if k == 0 {
        (d % 0x100) as u8
    } else if k == 1 {
        ((d / 0x100) % 0x100) as u8
    } else if k == 2 {
        ((d / 0x1_0000) % 0x100) as u8
    } else {
        ((d / 0x100_0000) % 0x100) as u8
    }
}

} // verus!
