//! Typed view of the PCIe configuration header: identifiers, class code and
//! base-address registers, unpacked field by field from the configuration
//! space bytes.
//!
//! Wire layout (byte offsets): vendor id 0, device id 2, command 4, status
//! 6, revision 8, programming interface 9, subclass 10, base class 11,
//! miscellaneous word 12, six base-address registers from 16, six further
//! words from 40.

use vstd::prelude::*;

use crate::bytes::read_le_u16;
use crate::bytes::read_le_u32;
use crate::bytes::spec_le16;
use crate::bytes::spec_le32;

verus! {

/// The class code triple.
#[allow(non_camel_case_types)]
#[derive(Clone, Copy, Debug)]
pub struct PCIE_CLASS_CODE {
    pub prog_if: u8,
    pub sub_class_code: u8,
    pub base_class_code: u8,
}

/// One decoded base-address register: memory/IO flag (bit 0), locatable
/// kind (bits 1..3), prefetchable flag (bit 3), and the base with the low
/// four flag bits cleared.
#[allow(non_camel_case_types)]
#[derive(Clone, Copy, Debug)]
pub struct BAR {
    pub region_type: u32,
    pub locatable: u32,
    pub prefetchable: u32,
    pub base_address: u32,
}

/// The decoded BAR fields of one raw register word.
pub open spec fn spec_bar_decoded(d: u32, b: BAR) -> bool {
    &&& b.region_type == d % 2
    &&& b.locatable == (d / 2) % 4
    &&& b.prefetchable == (d / 8) % 2
    &&& b.base_address == (d / 16) * 16
}

/// Decodes one raw base-address register word.
pub fn decode_bar(d: u32) -> (b: BAR)
    ensures
        spec_bar_decoded(d, b),
{
    BAR {
        region_type: d % 2,
        locatable: (d / 2) % 4,
        prefetchable: (d / 8) % 2,
        base_address: (d / 16) * 16,
    }
}

/// Typed view of the configuration header's fixed part.
#[allow(non_camel_case_types)]
#[derive(Debug)]
pub struct PCIE_CONFIG_HDR {
    pub vendor_id: u16,
    pub device_id: u16,
    pub command: u16,
    pub status: i16,
    pub rev_id: u8,
    pub class_code: PCIE_CLASS_CODE,
    pub misc: u32,
    pub base_address_registers: Vec<BAR>,
    pub misc2: Vec<i32>,
}

/// Parses the configuration header's fixed sixty-four bytes.
pub fn parse_config_hdr(cfg: &[u8]) -> (h: PCIE_CONFIG_HDR)
    requires
        cfg@.len() >= 64,
    ensures
        h.vendor_id == spec_le16(cfg@, 0),
        h.device_id == spec_le16(cfg@, 2),
        h.command == spec_le16(cfg@, 4),
        h.status == spec_le16(cfg@, 6) as i16,
        h.rev_id == cfg@[8],
        h.class_code.prog_if == cfg@[9],
        h.class_code.sub_class_code == cfg@[10],
        h.class_code.base_class_code == cfg@[11],
        h.misc == spec_le32(cfg@, 12),
        h.base_address_registers@.len() == 6,
        forall|k: int|
            0 <= k < 6 ==> spec_bar_decoded(
                spec_le32(cfg@, 16 + 4 * k),
                h.base_address_registers@[k],
            ),
        h.misc2@.len() == 6,
        forall|k: int| 0 <= k < 6 ==> h.misc2@[k] == spec_le32(cfg@, 40 + 4 * k) as i32,
{
    let n: usize = cfg.len();
    assert(n >= 64);
    let mut bars: Vec<BAR> = Vec::new();
    let mut k: usize = 0;
    while k < 6
        invariant
            cfg@.len() >= 64,
            k <= 6,
            bars@.len() == k,
            forall|m: int|
                0 <= m < k ==> spec_bar_decoded(spec_le32(cfg@, 16 + 4 * m), bars@[m]),
        decreases 6 - k,
    {
        bars.push(decode_bar(read_le_u32(cfg, 16 + 4 * k)));
        k = k + 1;
    }
    let mut misc2: Vec<i32> = Vec::new();
    let mut m: usize = 0;
    while m < 6
        invariant
            cfg@.len() >= 64,
            m <= 6,
            misc2@.len() == m,
            forall|j: int| 0 <= j < m ==> misc2@[j] == spec_le32(cfg@, 40 + 4 * j) as i32,
        decreases 6 - m,
    {
        misc2.push(read_le_u32(cfg, 40 + 4 * m) as i32);
        m = m + 1;
    }
    PCIE_CONFIG_HDR {
        vendor_id: read_le_u16(cfg, 0),
        device_id: read_le_u16(cfg, 2),
        command: read_le_u16(cfg, 4),
        status: read_le_u16(cfg, 6) as i16,
        rev_id: cfg[8],
        class_code: PCIE_CLASS_CODE {
            prog_if: cfg[9],
            sub_class_code: cfg[10],
            base_class_code: cfg[11],
        },
        misc: read_le_u32(cfg, 12),
        base_address_registers: bars,
        misc2: misc2,
    }
}

} // verus!
