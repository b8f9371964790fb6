use fm_library::bdf::PcieBdf;
use fm_library::bdf::extract_bdf;
use fm_library::bdf::parse_bdf;
use fm_library::confighdr::decode_bar;
use fm_library::confighdr::parse_config_hdr;
use fm_library::error::FmError;
use fm_library::resolver::PciAddressResolver;
use fm_library::resolver::resolve_ecam_base;
use fm_library::walker::CAPABILITY_HOP_LIMIT;
use fm_library::walker::CXL_DEVICE_REGISTERS_ID;
use fm_library::walker::PCIE_EXTENDED_CAPABILITY_START;
use fm_library::walker::find_register_locator_at;
use fm_library::walker::parse_ext_cap_hdr;
use fm_library::walker::REGISTER_BLOCK;
use fm_library::walker::REGISTER_OFFSET_HIGH;
use fm_library::walker::REGISTER_OFFSET_LOW;

fn put_le32(buf: &mut Vec<u8>, off: usize, val: u32) {
    for k in 0..4 {
        buf[off + k] = ((val >> (8 * k)) & 0xFF) as u8;
    }
}

#[test]
fn bdf_strict_parse() {
    assert_eq!(parse_bdf("00:01:02"), Ok(PcieBdf { bus: 0, device: 1, function: 2 }));
    assert_eq!(parse_bdf("ff:1f:7"), Ok(PcieBdf { bus: 0xFF, device: 0x1F, function: 7 }));
    assert_eq!(parse_bdf("xx:01:02"), Err(FmError::ParseError));
    assert_eq!(parse_bdf("00:01"), Err(FmError::ParseError));
    assert_eq!(parse_bdf("00:01:02:03"), Err(FmError::ParseError));
    assert_eq!(parse_bdf("000:01:02"), Err(FmError::ParseError));
    assert_eq!(parse_bdf(""), Err(FmError::ParseError));
    // Device and function outside their architectural ranges.
    assert_eq!(parse_bdf("00:20:00"), Err(FmError::ParseError));
    assert_eq!(parse_bdf("00:00:08"), Err(FmError::ParseError));
}

#[test]
fn bdf_permissive_fallback_is_all_zero() {
    assert_eq!(extract_bdf("02:00:00"), PcieBdf { bus: 2, device: 0, function: 0 });
    assert_eq!(extract_bdf("bogus"), PcieBdf { bus: 0, device: 0, function: 0 });
    assert_eq!(extract_bdf("zz:01:02"), PcieBdf { bus: 0, device: 0, function: 0 });
}

#[test]
fn bdf_constructor_checks_ranges() {
    assert!(PcieBdf::new(0, 31, 7).is_ok());
    assert_eq!(PcieBdf::new(0, 32, 0).unwrap_err(), FmError::OutOfRange);
    assert_eq!(PcieBdf::new(0, 0, 8).unwrap_err(), FmError::OutOfRange);
}

#[test]
fn ecam_base_from_report() {
    let report = b"00000000-00000fff : reserved\n  e0000000-efffffff : PCI ECAM 0000 [bus 00-ff]\nf0000000-f7ffffff : other\n";
    assert_eq!(resolve_ecam_base(report), Ok(0xE000_0000));
}

#[test]
fn ecam_first_match_wins() {
    let report = b"a0000000-afffffff : PCI ECAM one\nb0000000-bfffffff : PCI ECAM two\n";
    assert_eq!(resolve_ecam_base(report), Ok(0xA000_0000));
}

#[test]
fn ecam_missing_is_not_found() {
    let report = b"00000000-00000fff : reserved\n10000000-1fffffff : System RAM\n";
    assert_eq!(resolve_ecam_base(report), Err(FmError::NotFound));
    assert_eq!(resolve_ecam_base(b""), Err(FmError::NotFound));
}

#[test]
fn ecam_malformed_hex_is_parse_error() {
    // The qualifying line wins the scan, then fails to parse: no silent
    // default, and no falling through to a later line.
    let report = b"zzz-efffffff : PCI ECAM\ne0000000-efffffff : PCI ECAM\n";
    assert_eq!(resolve_ecam_base(report), Err(FmError::ParseError));
    let no_dash = b"PCI ECAM without any range\n";
    assert_eq!(resolve_ecam_base(no_dash), Err(FmError::ParseError));
}

#[test]
fn resolve_address_formula() {
    let resolver = PciAddressResolver::with_base(0xE000_0000).unwrap();
    let bdf = PcieBdf::new(0x02, 0x00, 0x00).unwrap();
    assert_eq!(resolver.resolve_address(&bdf), 0xE020_0000);
    let bdf2 = PcieBdf::new(0x01, 0x02, 0x03).unwrap();
    assert_eq!(resolver.resolve_address(&bdf2), 0xE000_0000 + (1 << 20) + (2 << 15) + (3 << 12));
    assert!(PciAddressResolver::with_base(u64::MAX).is_err());
}

#[test]
fn resolver_from_report() {
    let report = b"  e0000000-efffffff : PCI ECAM 0000 [bus 00-ff]\n";
    let resolver = PciAddressResolver::from_report(report).unwrap();
    assert_eq!(resolver.ecam_base(), 0xE000_0000);
    let bdf = extract_bdf("02:00:00");
    assert_eq!(resolver.resolve_address(&bdf), 0xE020_0000);
}

fn ext_cap_dw0(cap_id: u32, version: u32, next: u32) -> u32 {
    cap_id | (version << 16) | (next << 20)
}

fn dvsec_dw1(vendor: u32, rev: u32, length: u32) -> u32 {
    vendor | (rev << 16) | (length << 20)
}

fn block_low(bir: u32, block_id: u32, offset_low: u32) -> u32 {
    bir | (block_id << 8) | (offset_low << 16)
}

/// A register locator DVSEC at `at` with `blocks` descriptors and `next`.
fn put_register_locator(cfg: &mut Vec<u8>, at: usize, next: u32, blocks: &[(u32, u32, u32, u32)]) {
    put_le32(cfg, at, ext_cap_dw0(0x0023, 1, next));
    put_le32(cfg, at + 4, dvsec_dw1(0x1E98, 0, 12 + 8 * blocks.len() as u32));
    put_le32(cfg, at + 8, 0x0008);
    for (k, &(bir, id, low, high)) in blocks.iter().enumerate() {
        put_le32(cfg, at + 12 + 8 * k, block_low(bir, id, low));
        put_le32(cfg, at + 12 + 8 * k + 4, high);
    }
}

#[test]
fn walker_finds_first_register_locator_and_stops() {
    let mut cfg = vec![0u8; 4096];
    // A: an unrelated capability linking onward.
    put_le32(&mut cfg, 0x100, ext_cap_dw0(0x0001, 1, 0x200));
    // B: the register locator, with two blocks.
    put_register_locator(&mut cfg, 0x200, 0x300, &[(0, 0x03, 0x0010, 0x1), (2, 0x01, 0x0020, 0x0)]);
    // C: a second, different locator past the match; it must not be reached.
    put_register_locator(&mut cfg, 0x300, 0, &[(1, 0x7F, 0xAAAA, 0xBBBB)]);

    let loc = find_register_locator_at(&cfg, PCIE_EXTENDED_CAPABILITY_START).unwrap();
    assert_eq!(loc.pcie_ext_cap_hdr.pcie_ext_cap_id, 0x0023);
    assert_eq!(loc.pcie_ext_cap_hdr.dvsec_hdr1.dvsec_vendor_id, 0x1E98);
    assert_eq!(loc.pcie_ext_cap_hdr.dvsec_hdr2.dvsec_id, 0x0008);
    assert_eq!(loc.pcie_ext_cap_hdr.next_cap_ofs, 0x300);
    assert_eq!(loc.register_block.len(), 2);
    let b0 = &loc.register_block[0];
    assert_eq!(b0.register_offset_low.register_bir, 0);
    assert_eq!(b0.register_offset_low.register_block_identifier, CXL_DEVICE_REGISTERS_ID);
    assert_eq!(b0.register_offset_low.register_block_offset_low, 0x0010);
    assert_eq!(b0.register_offset_high.register_block_offset_high, 0x1);
    assert_eq!(b0.block_offset(), 0x1_0010_0000);
    let b1 = &loc.register_block[1];
    assert_eq!(b1.register_offset_low.register_block_identifier, 0x01);
    assert_eq!(b1.block_offset(), 0x0020_0000);
}

#[test]
fn walker_cyclic_chain_terminates_not_found() {
    let mut cfg = vec![0u8; 4096];
    // A links to B; B links back to A: a cycle with no match.
    put_le32(&mut cfg, 0x100, ext_cap_dw0(0x0001, 1, 0x200));
    put_le32(&mut cfg, 0x200, ext_cap_dw0(0x0002, 1, 0x100));
    assert_eq!(
        find_register_locator_at(&cfg, PCIE_EXTENDED_CAPABILITY_START).unwrap_err(),
        FmError::NotFound
    );
    // A header pointing at itself is the tightest cycle.
    let mut cfg2 = vec![0u8; 4096];
    put_le32(&mut cfg2, 0x100, ext_cap_dw0(0x0001, 1, 0x100));
    assert_eq!(
        find_register_locator_at(&cfg2, PCIE_EXTENDED_CAPABILITY_START).unwrap_err(),
        FmError::NotFound
    );
    assert!(CAPABILITY_HOP_LIMIT >= 64);
}

#[test]
fn walker_exhausted_chain_not_found() {
    let mut cfg = vec![0u8; 4096];
    put_le32(&mut cfg, 0x100, ext_cap_dw0(0x0001, 1, 0));
    assert_eq!(
        find_register_locator_at(&cfg, PCIE_EXTENDED_CAPABILITY_START).unwrap_err(),
        FmError::NotFound
    );
    // An out-of-bounds link ends the chain defensively.
    let mut cfg2 = vec![0u8; 0x200];
    put_le32(&mut cfg2, 0x100, ext_cap_dw0(0x0001, 1, 0x1F8));
    assert_eq!(
        find_register_locator_at(&cfg2, PCIE_EXTENDED_CAPABILITY_START).unwrap_err(),
        FmError::NotFound
    );
}

#[test]
fn ext_cap_header_fields() {
    let mut cfg = vec![0u8; 0x120];
    put_le32(&mut cfg, 0x100, ext_cap_dw0(0x0023, 2, 0x280));
    put_le32(&mut cfg, 0x104, dvsec_dw1(0x1E98, 1, 0x38));
    put_le32(&mut cfg, 0x108, 0x0008);
    let h = parse_ext_cap_hdr(&cfg, 0x100);
    assert_eq!(h.pcie_ext_cap_id, 0x0023);
    assert_eq!(h.cap_ver, 2);
    assert_eq!(h.next_cap_ofs, 0x280);
    assert_eq!(h.dvsec_hdr1.dvsec_vendor_id, 0x1E98);
    assert_eq!(h.dvsec_hdr1.dvsec_rev, 1);
    assert_eq!(h.dvsec_hdr1.dvsec_length, 0x38);
    assert_eq!(h.dvsec_hdr2.dvsec_id, 0x0008);
}

#[test]
fn register_block_offset_reconstruction() {
    let b = REGISTER_BLOCK {
        register_offset_low: REGISTER_OFFSET_LOW {
            register_bir: 0,
            register_block_identifier: 3,
            register_block_offset_low: 0x1234,
        },
        register_offset_high: REGISTER_OFFSET_HIGH { register_block_offset_high: 0x5678 },
    };
    assert_eq!(b.block_offset(), 0x5678_1234_0000);
}

#[test]
fn config_header_parse() {
    let mut cfg = vec![0u8; 64];
    cfg[0] = 0x98;
    cfg[1] = 0x1E;
    cfg[2] = 0x01;
    cfg[3] = 0x02;
    cfg[8] = 0x07;
    cfg[9] = 0x10;
    cfg[10] = 0x02;
    cfg[11] = 0x05;
    put_le32(&mut cfg, 16, 0xE000_000C);
    let h = parse_config_hdr(&cfg);
    assert_eq!(h.vendor_id, 0x1E98);
    assert_eq!(h.device_id, 0x0201);
    assert_eq!(h.rev_id, 0x07);
    assert_eq!(h.class_code.prog_if, 0x10);
    assert_eq!(h.class_code.sub_class_code, 0x02);
    assert_eq!(h.class_code.base_class_code, 0x05);
    assert_eq!(h.base_address_registers.len(), 6);
    let bar0 = &h.base_address_registers[0];
    assert_eq!(bar0.region_type, 0);
    assert_eq!(bar0.locatable, 2);
    assert_eq!(bar0.prefetchable, 1);
    assert_eq!(bar0.base_address, 0xE000_0000);
}

#[test]
fn bar_decode_io_space() {
    let b = decode_bar(0x0000_1001);
    assert_eq!(b.region_type, 1);
    assert_eq!(b.prefetchable, 0);
    assert_eq!(b.base_address, 0x1000);
}
