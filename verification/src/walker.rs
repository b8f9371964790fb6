//! The PCIe extended-capability chain walker: follows each header's
//! next-capability link from the chain entry point, capped at a fixed hop
//! limit to guard malformed or cyclic chains, until it finds the DVSEC whose
//! vendor id is the CXL designated vendor id and whose DVSEC id is the
//! Register Locator identifier.  On a match it parses the trailing body into
//! up to four register-block descriptors.
//!
//! Wire layout at a chain position `c` (little-endian 32-bit words):
//!   - `c + 0`: extended-capability id (bits 0..16), capability version
//!     (16..20), next capability offset (20..32).
//!   - `c + 4`: DVSEC vendor id (0..16), DVSEC revision (16..20), DVSEC
//!     length (20..32).
//!   - `c + 8`: DVSEC id (bits 0..16).
//!   - `c + 12 + 8k`: register block `k`: BAR index (0..3), block
//!     identifier (8..16), block offset bits 16..32 of the low word
//!     (16..32); the following word holds offset bits 32..64.

use vstd::prelude::*;

use crate::bitfield::U32Field;
use crate::bitfield::read_bits_u32;
use crate::bitfield::read_u32field;
use crate::bytes::read_le_u16;
use crate::bytes::read_le_u32;
use crate::bytes::spec_le16;
use crate::bytes::spec_le32;
use crate::error::FmError;

verus! {

/// Entry point of the extended-capability chain in configuration space.
pub const PCIE_EXTENDED_CAPABILITY_START: u16 = 0x100;

/// Hop limit guarding malformed or cyclic capability chains.
pub const CAPABILITY_HOP_LIMIT: u32 = 64;

/// Extended-capability id of a Designated Vendor-Specific Extended
/// Capability.
pub const PCIE_EXT_CAP_ID_DVSEC: u32 = 0x0023;

/// The CXL designated vendor id.
pub const CXL_VENDOR_ID: u32 = 0x1E98;

/// DVSEC id of the Register Locator capability.
pub const CXL_REGISTER_LOCATOR_DVSEC_ID: u16 = 0x0008;

/// Register-block identifier of the CXL device register block.
pub const CXL_DEVICE_REGISTERS_ID: u8 = 0x03;

/// Typed view of the first DVSEC header word.
#[allow(non_camel_case_types)]
#[derive(Clone, Copy, Debug)]
pub struct DVSEC_HDR1 {
    pub dvsec_vendor_id: u16,
    pub dvsec_rev: u16,
    pub dvsec_length: u16,
}

/// Typed view of the second DVSEC header word.
#[allow(non_camel_case_types)]
#[derive(Clone, Copy, Debug)]
pub struct DVSEC_HDR2 {
    pub dvsec_id: u16,
}

/// Typed view of an extended-capability header together with its DVSEC
/// headers.
#[allow(non_camel_case_types)]
#[derive(Clone, Copy, Debug)]
pub struct PCIE_EXT_CAP_HDR {
    pub pcie_ext_cap_id: u16,
    pub cap_ver: u16,
    pub next_cap_ofs: u16,
    pub dvsec_hdr1: DVSEC_HDR1,
    pub dvsec_hdr2: DVSEC_HDR2,
}

/// Typed view of a register block's low word.
#[allow(non_camel_case_types)]
#[derive(Clone, Copy, Debug)]
pub struct REGISTER_OFFSET_LOW {
    pub register_bir: u8,
    pub register_block_identifier: u8,
    pub register_block_offset_low: u16,
}

/// Typed view of a register block's high word: offset bits 32..64.
#[allow(non_camel_case_types)]
#[derive(Clone, Copy, Debug)]
pub struct REGISTER_OFFSET_HIGH {
    pub register_block_offset_high: u32,
}

/// One register-block descriptor of the Register Locator.
#[allow(non_camel_case_types)]
#[derive(Clone, Copy, Debug)]
pub struct REGISTER_BLOCK {
    pub register_offset_low: REGISTER_OFFSET_LOW,
    pub register_offset_high: REGISTER_OFFSET_HIGH,
}

impl REGISTER_BLOCK {
    /// The 64-bit byte offset reconstructed from the low-word/high-word
    /// split: the low word holds offset bits 16..32, the high word bits
    /// 32..64; bits 0..16 are zero by 64 KB alignment.
    pub open spec fn spec_block_offset(&self) -> u64 {
        (self.register_offset_low.register_block_offset_low * 0x1_0000
            + self.register_offset_high.register_block_offset_high * 0x1_0000_0000) as u64
    }

    /// Reconstructs the 64-bit byte offset of the block.
    pub fn block_offset(&self) -> (r: u64)
        ensures
            r == self.spec_block_offset(),
    {
        self.register_offset_low.register_block_offset_low as u64 * 0x1_0000
            + self.register_offset_high.register_block_offset_high as u64 * 0x1_0000_0000
    }
}

/// The parsed Register Locator capability: its header and up to four
/// register-block descriptors.
#[allow(non_camel_case_types)]
#[derive(Debug)]
pub struct registerLocator {
    pub pcie_ext_cap_hdr: PCIE_EXT_CAP_HDR,
    pub register_block: Vec<REGISTER_BLOCK>,
}

/// A header can be read at `c`: nonzero (zero terminates the chain) and
/// three words lie inside the configuration space.
pub open spec fn spec_hdr_readable(cfg: Seq<u8>, c: int) -> bool {
    c > 0 && c + 12 <= cfg.len()
}

/// Extended-capability id at `c`.
pub open spec fn spec_cap_id(cfg: Seq<u8>, c: int) -> u32 {
    read_bits_u32(0, 16, spec_le32(cfg, c))
}

/// Next-capability offset at `c`.
pub open spec fn spec_next_ofs(cfg: Seq<u8>, c: int) -> u32 {
    read_bits_u32(20, 12, spec_le32(cfg, c))
}

/// DVSEC vendor id at `c`.
pub open spec fn spec_dvsec_vendor(cfg: Seq<u8>, c: int) -> u32 {
    read_bits_u32(0, 16, spec_le32(cfg, c + 4))
}

/// DVSEC length at `c`.
pub open spec fn spec_dvsec_length(cfg: Seq<u8>, c: int) -> u32 {
    read_bits_u32(20, 12, spec_le32(cfg, c + 4))
}

/// DVSEC id at `c`.
pub open spec fn spec_dvsec_id(cfg: Seq<u8>, c: int) -> u16 {
    spec_le16(cfg, c + 8)
}

/// The header at `c` is the Register Locator DVSEC of the CXL vendor.
pub open spec fn spec_is_register_locator(cfg: Seq<u8>, c: int) -> bool {
    &&& spec_cap_id(cfg, c) == PCIE_EXT_CAP_ID_DVSEC
    &&& spec_dvsec_vendor(cfg, c) == CXL_VENDOR_ID
    &&& spec_dvsec_id(cfg, c) == CXL_REGISTER_LOCATOR_DVSEC_ID
}

/// Chain walk from `c` with `hops` link-follows left: the position of the
/// first matching header, or `None` when the chain ends, leaves the
/// configuration space, or the hop cap is spent.
pub open spec fn spec_walk(cfg: Seq<u8>, c: int, hops: nat) -> Option<int>
    decreases hops,
{
    if !spec_hdr_readable(cfg, c) {
        None
    } else if spec_is_register_locator(cfg, c) {
        Some(c)
    } else if hops == 0 {
        None
    } else {
        spec_walk(cfg, spec_next_ofs(cfg, c) as int, (hops - 1) as nat)
    }
}

/// How many register blocks the matched header at `c` carries: what its
/// DVSEC length announces beyond the fixed 12 header bytes, capped at four
/// and at what the configuration space can hold.
pub open spec fn spec_block_count(cfg: Seq<u8>, c: int) -> int
    recommends
        spec_hdr_readable(cfg, c),
{
    let from_len = if spec_dvsec_length(cfg, c) >= 12 {
        (spec_dvsec_length(cfg, c) - 12) / 8
    } else {
        0int
    };
    let capped = if from_len > 4 {
        4int
    } else {
        from_len
    };
    let fit = (cfg.len() - (c + 12)) / 8;
    if capped > fit {
        fit
    } else {
        capped
    }
}

/// Low word of register block `k` of the header at `c`.
pub open spec fn spec_block_low(cfg: Seq<u8>, c: int, k: int) -> u32 {
    spec_le32(cfg, c + 12 + 8 * k)
}

/// High word of register block `k` of the header at `c`.
pub open spec fn spec_block_high(cfg: Seq<u8>, c: int, k: int) -> u32 {
    spec_le32(cfg, c + 12 + 8 * k + 4)
}

/// The parsed block `k` matches the wire words at `c`.
pub open spec fn spec_block_parsed(cfg: Seq<u8>, c: int, k: int, b: REGISTER_BLOCK) -> bool {
    &&& b.register_offset_low.register_bir == read_bits_u32(0, 3, spec_block_low(cfg, c, k)) as u8
    &&& b.register_offset_low.register_block_identifier == read_bits_u32(
        8,
        8,
        spec_block_low(cfg, c, k),
    ) as u8
    &&& b.register_offset_low.register_block_offset_low == read_bits_u32(
        16,
        16,
        spec_block_low(cfg, c, k),
    ) as u16
    &&& b.register_offset_high.register_block_offset_high == spec_block_high(cfg, c, k)
}

/// The parsed header matches the wire words at `c`.
pub open spec fn spec_hdr_parsed(cfg: Seq<u8>, c: int, h: PCIE_EXT_CAP_HDR) -> bool {
    &&& h.pcie_ext_cap_id == spec_cap_id(cfg, c) as u16
    &&& h.cap_ver == read_bits_u32(16, 4, spec_le32(cfg, c)) as u16
    &&& h.next_cap_ofs == spec_next_ofs(cfg, c) as u16
    &&& h.dvsec_hdr1.dvsec_vendor_id == spec_dvsec_vendor(cfg, c) as u16
    &&& h.dvsec_hdr1.dvsec_rev == read_bits_u32(16, 4, spec_le32(cfg, c + 4)) as u16
    &&& h.dvsec_hdr1.dvsec_length == spec_dvsec_length(cfg, c) as u16
    &&& h.dvsec_hdr2.dvsec_id == spec_dvsec_id(cfg, c)
}

/// Parses the extended-capability and DVSEC headers at `c`.
pub fn parse_ext_cap_hdr(cfg: &[u8], c: usize) -> (h: PCIE_EXT_CAP_HDR)
    requires
        c + 12 <= cfg@.len(),
    ensures
        spec_hdr_parsed(cfg@, c as int, h),
{
    let clen: usize = cfg.len();
    assert(c + 12 <= clen);
    let dw0 = read_le_u32(cfg, c);
    let dw1 = read_le_u32(cfg, c + 4);
    let id2 = read_le_u16(cfg, c + 8);
    PCIE_EXT_CAP_HDR {
        pcie_ext_cap_id: read_u32field(&U32Field { offset: 0, bitwidth: 16 }, dw0) as u16,
        cap_ver: read_u32field(&U32Field { offset: 16, bitwidth: 4 }, dw0) as u16,
        next_cap_ofs: read_u32field(&U32Field { offset: 20, bitwidth: 12 }, dw0) as u16,
        dvsec_hdr1: DVSEC_HDR1 {
            dvsec_vendor_id: read_u32field(&U32Field { offset: 0, bitwidth: 16 }, dw1) as u16,
            dvsec_rev: read_u32field(&U32Field { offset: 16, bitwidth: 4 }, dw1) as u16,
            dvsec_length: read_u32field(&U32Field { offset: 20, bitwidth: 12 }, dw1) as u16,
        },
        dvsec_hdr2: DVSEC_HDR2 { dvsec_id: id2 },
    }
}

/// Walks the chain from `start` and returns the parsed Register Locator, or
/// `NotFound` when the chain is exhausted, leaves the configuration space,
/// or the hop cap is reached without a match.
pub fn find_register_locator_at(cfg: &[u8], start: u16) -> (r: Result<registerLocator, FmError>)
    ensures
        r is Ok <==> spec_walk(cfg@, start as int, CAPABILITY_HOP_LIMIT as nat) is Some,
        r matches Ok(loc) ==> spec_walk(cfg@, start as int, CAPABILITY_HOP_LIMIT as nat) matches Some(
            c,
        ) && {
            &&& spec_hdr_parsed(cfg@, c, loc.pcie_ext_cap_hdr)
            &&& loc.register_block@.len() == spec_block_count(cfg@, c)
            &&& forall|k: int|
                0 <= k < loc.register_block@.len() ==> spec_block_parsed(
                    cfg@,
                    c,
                    k,
                    loc.register_block@[k],
                )
        },
        r is Err ==> r == Result::<registerLocator, FmError>::Err(FmError::NotFound),
{
    let mut c: usize = start as usize;
    let mut hops: u32 = CAPABILITY_HOP_LIMIT;
    loop
        invariant
            c <= 0xffff,
            hops <= CAPABILITY_HOP_LIMIT,
            spec_walk(cfg@, start as int, CAPABILITY_HOP_LIMIT as nat) == spec_walk(
                cfg@,
                c as int,
                hops as nat,
            ),
        decreases hops,
    {
        if c == 0 || c + 12 > cfg.len() {
            return Err(FmError::NotFound);
        }
        let dw0 = read_le_u32(cfg, c);
        let dw1 = read_le_u32(cfg, c + 4);
        let cap_id = read_u32field(&U32Field { offset: 0, bitwidth: 16 }, dw0);
        let vendor = read_u32field(&U32Field { offset: 0, bitwidth: 16 }, dw1);
        let dvsec_id = read_le_u16(cfg, c + 8);
        if cap_id == PCIE_EXT_CAP_ID_DVSEC && vendor == CXL_VENDOR_ID && dvsec_id
            == CXL_REGISTER_LOCATOR_DVSEC_ID {
            let hdr = parse_ext_cap_hdr(cfg, c);
            let dvsec_len = read_u32field(&U32Field { offset: 20, bitwidth: 12 }, dw1);
            let mut n: usize = if dvsec_len >= 12 {
                ((dvsec_len - 12) / 8) as usize
            } else {
                0
            };
            if n > 4 {
                n = 4;
            }
            let clen: usize = cfg.len();
            let fit: usize = (clen - (c + 12)) / 8;
            if n > fit {
                n = fit;
            }
            let mut blocks: Vec<REGISTER_BLOCK> = Vec::new();
            let mut k: usize = 0;
            while k < n
                invariant
                    c <= 0xffff,
                    clen == cfg@.len(),
                    c + 12 <= clen,
                    n <= 4,
                    n <= (clen - (c + 12)) / 8,
                    k <= n,
                    blocks@.len() == k,
                    forall|m: int|
                        0 <= m < k ==> spec_block_parsed(cfg@, c as int, m, blocks@[m]),
                decreases n - k,
            {
                let base: usize = c + 12 + 8 * k;
                let low = read_le_u32(cfg, base);
                let high = read_le_u32(cfg, base + 4);
                blocks.push(
                    REGISTER_BLOCK {
                        register_offset_low: REGISTER_OFFSET_LOW {
                            register_bir: read_u32field(
                                &U32Field { offset: 0, bitwidth: 3 },
                                low,
                            ) as u8,
                            register_block_identifier: read_u32field(
                                &U32Field { offset: 8, bitwidth: 8 },
                                low,
                            ) as u8,
                            register_block_offset_low: read_u32field(
                                &U32Field { offset: 16, bitwidth: 16 },
                                low,
                            ) as u16,
                        },
                        register_offset_high: REGISTER_OFFSET_HIGH {
                            register_block_offset_high: high,
                        },
                    },
                );
                k = k + 1;
            }
            return Ok(registerLocator { pcie_ext_cap_hdr: hdr, register_block: blocks });
        }
        if hops == 0 {
            return Err(FmError::NotFound);
        }
        let next = read_u32field(&U32Field { offset: 20, bitwidth: 12 }, dw0);
        proof {
            crate::bitfield::lemma_read_bits_u32_bound(20, 12, spec_le32(cfg@, c as int));
            assert((1u32 << 12) == 4096) by (bit_vector);
        }
        c = next as usize;
        hops = hops - 1;
    }
}

} // verus!
