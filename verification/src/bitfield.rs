//! Pure mask/read/write transforms over 32- and 64-bit register values.
//!
//! A field descriptor names a contiguous bit range `[offset, offset+bitwidth)`
//! of a register value and never holds the register itself.  `write` merges a
//! new value truncated (masked, not rejected) to the field's width, mirroring
//! hardware semantics where overflow bits are silently dropped.  A zero-width
//! field masks to zero, and a full-width field avoids the undefined full-width
//! shift.

use vstd::prelude::*;

verus! {

/// Descriptor of a bit range inside a 32-bit register value.
#[derive(Clone, Copy, Debug)]
pub struct U32Field {
    pub offset: u32,
    pub bitwidth: u32,
}

impl U32Field {
    /// The described range lies inside the 32-bit register.
    pub open spec fn wf(&self) -> bool {
        self.offset + self.bitwidth <= 32
    }
}

/// Descriptor of a bit range inside a 64-bit register value.
#[derive(Clone, Copy, Debug)]
pub struct U64Field {
    pub offset: u32,
    pub bitwidth: u32,
}

impl U64Field {
    /// The described range lies inside the 64-bit register.
    pub open spec fn wf(&self) -> bool {
        self.offset + self.bitwidth <= 64
    }
}

/// `bitwidth` one-bits shifted up by `offset`, in a 32-bit register.
pub open spec fn mask_bits_u32(offset: u32, bitwidth: u32) -> u32 {
    if bitwidth == 0 {
        0u32
    } else if bitwidth >= 32 {
        0xffff_ffffu32 << offset
    } else {
        (((1u32 << bitwidth) - 1) as u32) << offset
    }
}

/// The field's bits of `reg`, right-aligned.
pub open spec fn read_bits_u32(offset: u32, bitwidth: u32, reg: u32) -> u32 {
    if bitwidth == 0 {
        0u32
    } else if bitwidth >= 32 {
        reg >> offset
    } else {
        (reg >> offset) & (((1u32 << bitwidth) - 1) as u32)
    }
}

/// `reg` with the field's bits replaced by `val` truncated to the width.
pub open spec fn write_bits_u32(offset: u32, bitwidth: u32, reg: u32, val: u32) -> u32 {
    if bitwidth == 0 {
        reg
    } else {
        (reg & !mask_bits_u32(offset, bitwidth)) | ((val << offset) & mask_bits_u32(
            offset,
            bitwidth,
        ))
    }
}

/// `val` masked down to its low `bitwidth` bits.
pub open spec fn truncate_bits_u32(bitwidth: u32, val: u32) -> u32 {
    if bitwidth == 0 {
        0u32
    } else if bitwidth >= 32 {
        val
    } else {
        val & (((1u32 << bitwidth) - 1) as u32)
    }
}

/// `bitwidth` one-bits shifted up by `offset`, in a 64-bit register.
pub open spec fn mask_bits_u64(offset: u32, bitwidth: u32) -> u64 {
    if bitwidth == 0 {
        0u64
    } else if bitwidth >= 64 {
        0xffff_ffff_ffff_ffffu64 << offset
    } else {
        (((1u64 << bitwidth) - 1) as u64) << offset
    }
}

/// The field's bits of `reg`, right-aligned.
pub open spec fn read_bits_u64(offset: u32, bitwidth: u32, reg: u64) -> u64 {
    if bitwidth == 0 {
        0u64
    } else if bitwidth >= 64 {
        reg >> offset
    } else {
        (reg >> offset) & (((1u64 << bitwidth) - 1) as u64)
    }
}

/// `reg` with the field's bits replaced by `val` truncated to the width.
pub open spec fn write_bits_u64(offset: u32, bitwidth: u32, reg: u64, val: u64) -> u64 {
    if bitwidth == 0 {
        reg
    } else {
        (reg & !mask_bits_u64(offset, bitwidth)) | ((val << offset) & mask_bits_u64(
            offset,
            bitwidth,
        ))
    }
}

/// `val` masked down to its low `bitwidth` bits.
pub open spec fn truncate_bits_u64(bitwidth: u32, val: u64) -> u64 {
    if bitwidth == 0 {
        0u64
    } else if bitwidth >= 64 {
        val
    } else {
        val & (((1u64 << bitwidth) - 1) as u64)
    }
}

/// Returns the field's mask: `bitwidth` one-bits shifted up by `offset`.
pub fn mask_u32field(u: &U32Field) -> (r: u32)
    requires
        u.wf(),
    ensures
        r == mask_bits_u32(u.offset, u.bitwidth),
{
    let w = u.bitwidth;
    if w == 0 {
        0
    } else if w >= 32 {
        0xffff_ffffu32 << u.offset
    } else {
        proof {
            assert(1u32 << w >= 1) by (bit_vector)
                requires
                    0 < w < 32,
            ;
        }
        ((1u32 << w) - 1) << u.offset
    }
}

/// Extracts the field from `reg` and right-shifts it into place.
pub fn read_u32field(u: &U32Field, reg: u32) -> (r: u32)
    requires
        u.wf(),
    ensures
        r == read_bits_u32(u.offset, u.bitwidth, reg),
{
    let w = u.bitwidth;
    if w == 0 {
        0
    } else if w >= 32 {
        reg >> u.offset
    } else {
        proof {
            assert(1u32 << w >= 1) by (bit_vector)
                requires
                    0 < w < 32,
            ;
        }
        (reg >> u.offset) & ((1u32 << w) - 1)
    }
}

/// Clears the field's bits of `reg`, then merges `val` truncated to the
/// field's width.
pub fn write_u32field(u: &U32Field, reg: &mut u32, val: u32)
    requires
        u.wf(),
    ensures
        *final(reg) == write_bits_u32(u.offset, u.bitwidth, *old(reg), val),
{
    if u.bitwidth > 0 {
        let m = mask_u32field(u);
        *reg = (*reg & !m) | ((val << u.offset) & m);
    }
}

/// Returns the field's mask: `bitwidth` one-bits shifted up by `offset`.
pub fn mask_u64field(u: &U64Field) -> (r: u64)
    requires
        u.wf(),
    ensures
        r == mask_bits_u64(u.offset, u.bitwidth),
{
    let w = u.bitwidth;
    if w == 0 {
        0
    } else if w >= 64 {
        0xffff_ffff_ffff_ffffu64 << u.offset
    } else {
        proof {
            assert(1u64 << w >= 1) by (bit_vector)
                requires
                    0 < w < 64,
            ;
        }
        ((1u64 << w) - 1) << u.offset
    }
}

/// Extracts the field from `reg` and right-shifts it into place.
pub fn read_u64field(u: &U64Field, reg: u64) -> (r: u64)
    requires
        u.wf(),
    ensures
        r == read_bits_u64(u.offset, u.bitwidth, reg),
{
    let w = u.bitwidth;
    if w == 0 {
        0
    } else if w >= 64 {
        reg >> u.offset
    } else {
        proof {
            assert(1u64 << w >= 1) by (bit_vector)
                requires
                    0 < w < 64,
            ;
        }
        (reg >> u.offset) & ((1u64 << w) - 1)
    }
}

/// Clears the field's bits of `reg`, then merges `val` truncated to the
/// field's width.
pub fn write_u64field(u: &U64Field, reg: &mut u64, val: u64)
    requires
        u.wf(),
    ensures
        *final(reg) == write_bits_u64(u.offset, u.bitwidth, *old(reg), val),
{
    if u.bitwidth > 0 {
        let m = mask_u64field(u);
        *reg = (*reg & !m) | ((val << u.offset) & m);
    }
}

/// Law: writing a 32-bit field and reading it back returns the written value
/// truncated to the field's width, whatever the register held before.
pub proof fn lemma_write_then_read_u32(offset: u32, bitwidth: u32, reg: u32, val: u32)
    by (bit_vector)
    requires
        offset + bitwidth <= 32,
    ensures
        read_bits_u32(offset, bitwidth, write_bits_u32(offset, bitwidth, reg, val))
            == truncate_bits_u32(bitwidth, val),
{
}

/// Law: writing a 64-bit field and reading it back returns the written value
/// truncated to the field's width, whatever the register held before.
pub proof fn lemma_write_then_read_u64(offset: u32, bitwidth: u32, reg: u64, val: u64)
    by (bit_vector)
    requires
        offset + bitwidth <= 64,
    ensures
        read_bits_u64(offset, bitwidth, write_bits_u64(offset, bitwidth, reg, val))
            == truncate_bits_u64(bitwidth, val),
{
}

/// Law: writing one 32-bit field leaves every disjoint field unchanged.
pub proof fn lemma_write_preserves_disjoint_u32(
    offset: u32,
    bitwidth: u32,
    offset2: u32,
    bitwidth2: u32,
    reg: u32,
    val: u32,
)
    by (bit_vector)
    requires
        offset + bitwidth <= 32,
        offset2 + bitwidth2 <= 32,
        offset + bitwidth <= offset2 || offset2 + bitwidth2 <= offset,
    ensures
        read_bits_u32(offset2, bitwidth2, write_bits_u32(offset, bitwidth, reg, val))
            == read_bits_u32(offset2, bitwidth2, reg),
{
}

/// Law: writing one 64-bit field leaves every disjoint field unchanged.
pub proof fn lemma_write_preserves_disjoint_u64(
    offset: u32,
    bitwidth: u32,
    offset2: u32,
    bitwidth2: u32,
    reg: u64,
    val: u64,
)
    by (bit_vector)
    requires
        offset + bitwidth <= 64,
        offset2 + bitwidth2 <= 64,
        offset + bitwidth <= offset2 || offset2 + bitwidth2 <= offset,
    ensures
        read_bits_u64(offset2, bitwidth2, write_bits_u64(offset, bitwidth, reg, val))
            == read_bits_u64(offset2, bitwidth2, reg),
{
}

/// Law: a read value always fits in the field's width.
pub proof fn lemma_read_bits_u32_bound(offset: u32, bitwidth: u32, reg: u32)
    by (bit_vector)
    requires
        offset + bitwidth <= 32,
        bitwidth < 32,
    ensures
        read_bits_u32(offset, bitwidth, reg) < (1u32 << bitwidth),
{
}

/// Law: a read value always fits in the field's width.
pub proof fn lemma_read_bits_u64_bound(offset: u32, bitwidth: u32, reg: u64)
    by (bit_vector)
    requires
        offset + bitwidth <= 64,
        bitwidth < 64,
    ensures
        read_bits_u64(offset, bitwidth, reg) < (1u64 << bitwidth),
{
}

/// Law: a write-then-read of a field returns the value masked to the field's
/// width, and a zero-width field masks everything to zero.
pub proof fn lemma_u32field_write_then_read(f: U32Field, reg: u32, val: u32)
    requires
        f.wf(),
    ensures
        read_bits_u32(f.offset, f.bitwidth, write_bits_u32(f.offset, f.bitwidth, reg, val))
            == truncate_bits_u32(f.bitwidth, val),
        f.bitwidth == 0 ==> mask_bits_u32(f.offset, f.bitwidth) == 0 && read_bits_u32(
            f.offset,
            f.bitwidth,
            reg,
        ) == 0,
{
    lemma_write_then_read_u32(f.offset, f.bitwidth, reg, val);
}

/// Law: a write-then-read of a field returns the value masked to the field's
/// width, and a zero-width field masks everything to zero.
pub proof fn lemma_u64field_write_then_read(f: U64Field, reg: u64, val: u64)
    requires
        f.wf(),
    ensures
        read_bits_u64(f.offset, f.bitwidth, write_bits_u64(f.offset, f.bitwidth, reg, val))
            == truncate_bits_u64(f.bitwidth, val),
        f.bitwidth == 0 ==> mask_bits_u64(f.offset, f.bitwidth) == 0 && read_bits_u64(
            f.offset,
            f.bitwidth,
            reg,
        ) == 0,
{
    lemma_write_then_read_u64(f.offset, f.bitwidth, reg, val);
}

} // verus!
