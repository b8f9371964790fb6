use fm_library::bitfield::U32Field;
use fm_library::bitfield::U64Field;
use fm_library::bitfield::mask_u32field;
use fm_library::bitfield::mask_u64field;
use fm_library::bitfield::read_u32field;
use fm_library::bitfield::read_u64field;
use fm_library::bitfield::write_u32field;
use fm_library::bitfield::write_u64field;
use fm_library::error::FmError;
use fm_library::error::MailboxReturnKind;
use fm_library::error::command_outcome;
use fm_library::error::return_code_kind;
use fm_library::hexnum::parse_hex_u64;
use fm_library::mailbox::MailboxEngine;
use fm_library::mailbox::MailboxState;
use fm_library::mailbox::PollProgress;
use fm_library::mailbox::locate_mailbox;
use fm_library::mailbox::mailbox_capabilities_register;
use fm_library::mailbox::mailbox_command_register;
use fm_library::mailbox::mailbox_control_register;
use fm_library::mailbox::mailbox_registers;
use fm_library::mailbox::mailbox_status_register;
use fm_library::regfile::MemoryDeviceRegisters;

fn put_le16(arena: &mut Vec<u8>, off: usize, val: u16) {
    arena[off] = (val & 0xFF) as u8;
    arena[off + 1] = (val >> 8) as u8;
}

fn put_le32(arena: &mut Vec<u8>, off: usize, val: u32) {
    for k in 0..4 {
        arena[off + k] = ((val >> (8 * k)) & 0xFF) as u8;
    }
}

#[test]
fn bitfield_write_then_read_masks_to_width() {
    let f = U32Field { offset: 4, bitwidth: 8 };
    let mut reg: u32 = 0xFFFF_FFFF;
    write_u32field(&f, &mut reg, 0x1AB);
    assert_eq!(read_u32field(&f, reg), 0xAB);
    assert_eq!(reg & !mask_u32field(&f), 0xFFFF_F00F);

    let g = U64Field { offset: 32, bitwidth: 16 };
    let mut reg64: u64 = 0;
    write_u64field(&g, &mut reg64, 0x2_BEEF);
    assert_eq!(read_u64field(&g, reg64), 0xBEEF);
}

#[test]
fn bitfield_zero_width_masks_to_zero() {
    let f = U32Field { offset: 7, bitwidth: 0 };
    assert_eq!(mask_u32field(&f), 0);
    assert_eq!(read_u32field(&f, 0xFFFF_FFFF), 0);
    let g = U64Field { offset: 64, bitwidth: 0 };
    assert_eq!(mask_u64field(&g), 0);
    assert_eq!(read_u64field(&g, u64::MAX), 0);
}

#[test]
fn bitfield_full_width() {
    let f = U32Field { offset: 0, bitwidth: 32 };
    assert_eq!(mask_u32field(&f), 0xFFFF_FFFF);
    let mut reg: u32 = 7;
    write_u32field(&f, &mut reg, 0xDEAD_BEEF);
    assert_eq!(read_u32field(&f, reg), 0xDEAD_BEEF);
    let g = U64Field { offset: 0, bitwidth: 64 };
    assert_eq!(mask_u64field(&g), u64::MAX);
}

#[test]
fn bitfield_masks() {
    assert_eq!(mask_u32field(&U32Field { offset: 0, bitwidth: 1 }), 1);
    assert_eq!(mask_u32field(&U32Field { offset: 20, bitwidth: 12 }), 0xFFF0_0000);
    assert_eq!(mask_u64field(&U64Field { offset: 16, bitwidth: 21 }), 0x1F_FFFF_0000);
}

#[test]
fn return_code_table() {
    assert_eq!(return_code_kind(0), MailboxReturnKind::Success);
    assert_eq!(return_code_kind(1), MailboxReturnKind::BackgroundStarted);
    assert_eq!(return_code_kind(2), MailboxReturnKind::InvalidInput);
    assert_eq!(return_code_kind(3), MailboxReturnKind::Unsupported);
    assert_eq!(return_code_kind(4), MailboxReturnKind::InternalError);
    assert_eq!(return_code_kind(5), MailboxReturnKind::Retry);
    assert_eq!(return_code_kind(6), MailboxReturnKind::Busy);
    assert_eq!(return_code_kind(7), MailboxReturnKind::MediaDisabled);
    assert_eq!(return_code_kind(0x55), MailboxReturnKind::Other(0x55));
    assert_eq!(command_outcome(0), Ok(()));
    assert_eq!(command_outcome(4), Err(FmError::HardwareReturnCode(4)));
}

#[test]
fn hex_parse_values_and_errors() {
    assert_eq!(parse_hex_u64(b"e0000000"), Ok(0xE000_0000));
    assert_eq!(parse_hex_u64(b"E0000000"), Ok(0xE000_0000));
    assert_eq!(parse_hex_u64(b"0"), Ok(0));
    assert_eq!(parse_hex_u64(b"ffffffffffffffff"), Ok(u64::MAX));
    assert_eq!(parse_hex_u64(b""), Err(FmError::ParseError));
    assert_eq!(parse_hex_u64(b"10000000000000000"), Err(FmError::ParseError));
    assert_eq!(parse_hex_u64(b"12g4"), Err(FmError::ParseError));
}

fn arena_with_caps(count: u16) -> Vec<u8> {
    let mut arena = vec![0u8; 4096];
    put_le16(&mut arena, 0, 0x0000);
    arena[2] = 1;
    put_le16(&mut arena, 4, count);
    arena
}

#[test]
fn register_file_header_and_block() {
    let mut arena = arena_with_caps(1);
    // Header 0: capability id 2, version 1, block at 0x800 of 0x20 bytes.
    put_le16(&mut arena, 16, 0x0002);
    arena[18] = 1;
    put_le32(&mut arena, 20, 0x800);
    put_le32(&mut arena, 24, 0x20);
    for k in 0..0x20 {
        arena[0x800 + k] = k as u8;
    }
    let file = MemoryDeviceRegisters::new(arena).unwrap();
    assert_eq!(file.capability_count(), 1);
    let arr = file.device_capabilities_array();
    assert_eq!(arr.capabilities_count, 1);
    assert_eq!(arr.version, 1);
    let h = file.capability_header(0).unwrap();
    assert_eq!(h.capability_id, 0x0002);
    assert_eq!(h.offset, 0x800);
    assert_eq!(h.length, 0x20);
    let block = file.capability_block(0).unwrap();
    assert_eq!(block.len(), 0x20);
    assert_eq!(block[0x1F], 0x1F);
    assert_eq!(file.find_capability(0x0002), Some(0));
    assert_eq!(file.find_capability(0x0003), None);
}

#[test]
fn register_file_index_beyond_count_is_out_of_range() {
    // The arena has room for many more headers; the count is authoritative.
    let mut arena = arena_with_caps(1);
    put_le16(&mut arena, 16, 0x0002);
    put_le32(&mut arena, 20, 0x800);
    put_le32(&mut arena, 24, 0x20);
    // A stale, plausible-looking header sits in the unused slot after it.
    put_le16(&mut arena, 32, 0x0003);
    put_le32(&mut arena, 36, 0x900);
    put_le32(&mut arena, 40, 0x10);
    let file = MemoryDeviceRegisters::new(arena).unwrap();
    assert_eq!(file.capability_header(1).unwrap_err(), FmError::OutOfRange);
    assert_eq!(file.capability_block(1).unwrap_err(), FmError::OutOfRange);
}

#[test]
fn register_file_hostile_block_bounds() {
    let mut arena = arena_with_caps(1);
    put_le16(&mut arena, 16, 0x0002);
    put_le32(&mut arena, 20, 0xFF0);
    put_le32(&mut arena, 24, 0x20);
    let file = MemoryDeviceRegisters::new(arena).unwrap();
    assert_eq!(file.capability_block(0).unwrap_err(), FmError::OutOfRange);
}

#[test]
fn register_file_wrong_arena_size_refused() {
    assert!(MemoryDeviceRegisters::new(vec![0u8; 100]).is_err());
}

#[test]
fn typed_register_views_unpack() {
    // payload size 8, doorbell-interrupt capable, ready time 5.
    let caps_raw: u32 = 8 | (1 << 5) | (5 << 11);
    let caps = mailbox_capabilities_register::from_raw(caps_raw);
    assert_eq!(caps.payload_size, 8);
    assert_eq!(caps.mb_doorbell_int_capable, 1);
    assert_eq!(caps.mb_ready_time, 5);
    let ctrl = mailbox_control_register::from_raw(0b101);
    assert_eq!(ctrl.doorbell, 1);
    assert_eq!(ctrl.doorbell_interrupt_mode, 0);
    assert_eq!(ctrl.background_command_complete_interupt, 1);
    let cmd = mailbox_command_register::from_raw(1u64 | (5 << 16));
    assert_eq!(cmd.opcode, 1);
    assert_eq!(cmd.payload_size, 5);
    let status = mailbox_status_register::from_raw(0x0005_0000_0000u64 | 1);
    assert_eq!(status.background_operation_status, 1);
    assert_eq!(status.return_code, 5);
}

#[test]
fn mailbox_round_trip_after_n_polls() {
    // Capabilities advertise two to the eighth: 256 payload bytes.
    let mut regs = mailbox_registers::new_simulated(8);
    let mut engine = MailboxEngine::attach(&regs);
    assert_eq!(engine.max_payload(), 256);
    assert_eq!(engine.state(), MailboxState::Idle);

    engine.submit(&mut regs, 0x01, &[0xAA, 0xBB]).unwrap();
    assert_eq!(engine.state(), MailboxState::DoorbellRung);
    assert_eq!(regs.doorbell(), 1);
    assert_eq!(regs.command_opcode(), 0x01);
    assert_eq!(regs.command_payload_size(), 2);

    // A second submit before the doorbell clears is refused.
    let mut engine2 = MailboxEngine::attach(&regs);
    assert_eq!(engine2.submit(&mut regs, 0x02, &[0x01]).unwrap_err(), FmError::Busy);

    // The simulated device clears the doorbell after exactly three polls.
    let n = 3;
    for _ in 0..n {
        assert_eq!(engine.poll_once(&regs).unwrap(), PollProgress::Pending);
        assert_eq!(engine.state(), MailboxState::Polling);
    }
    regs.device_complete(0);
    assert_eq!(engine.poll_once(&regs).unwrap(), PollProgress::Ready);
    assert_eq!(engine.state(), MailboxState::Completed);

    let (code, payload) = engine.result(&regs).unwrap();
    assert_eq!(code, 0);
    assert_eq!(payload, vec![0xAA, 0xBB]);
    assert_eq!(engine.state(), MailboxState::Idle);
}

#[test]
fn mailbox_payload_too_large_leaves_registers_unchanged() {
    let mut regs = mailbox_registers::new_simulated(8);
    let mut engine = MailboxEngine::attach(&regs);
    let before_control = regs.control_raw();
    let before_command = regs.command_raw();
    let big = vec![0x5Au8; 300];
    assert_eq!(engine.submit(&mut regs, 0x01, &big).unwrap_err(), FmError::PayloadTooLarge);
    assert_eq!(regs.control_raw(), before_control);
    assert_eq!(regs.command_raw(), before_command);
    assert_eq!(regs.doorbell(), 0);
    assert_eq!(engine.state(), MailboxState::Idle);
}

#[test]
fn mailbox_poll_budget_is_authoritative() {
    let mut regs = mailbox_registers::new_simulated(8);
    let mut engine = MailboxEngine::attach(&regs);
    engine.submit(&mut regs, 0x01, &[]).unwrap();
    assert_eq!(engine.poll(&regs, 0).unwrap_err(), FmError::Timeout);
    assert_eq!(engine.poll(&regs, 5).unwrap_err(), FmError::Timeout);
    regs.device_complete(0);
    assert_eq!(engine.poll(&regs, 1).unwrap(), PollProgress::Ready);
}

#[test]
fn mailbox_background_operation() {
    let mut regs = mailbox_registers::new_simulated(8);
    let mut engine = MailboxEngine::attach(&regs);
    engine.submit(&mut regs, 0x42, &[0x01]).unwrap();
    // The device answers with the background-operation sentinel.
    regs.device_complete(1);
    assert_eq!(engine.poll_once(&regs).unwrap(), PollProgress::Background);
    assert_eq!(engine.state(), MailboxState::BackgroundRunning);
    regs.device_set_background_status(40, 0);
    assert_eq!(engine.poll_background(&regs).unwrap(), PollProgress::Pending);
    regs.device_set_background_status(100, 0);
    assert_eq!(engine.poll_background(&regs).unwrap(), PollProgress::Ready);
    assert_eq!(engine.state(), MailboxState::BackgroundCompleted);
    let (code, payload) = engine.result(&regs).unwrap();
    assert_eq!(code, 0);
    assert_eq!(payload.len(), 1);
    assert_eq!(payload[0], 0x01);
    assert_eq!(engine.state(), MailboxState::Idle);
}

#[test]
fn mailbox_result_outside_completed_is_invalid_state() {
    let mut regs = mailbox_registers::new_simulated(8);
    let mut engine = MailboxEngine::attach(&regs);
    assert_eq!(engine.result(&regs).unwrap_err(), FmError::InvalidState);
    assert_eq!(engine.poll_once(&regs).unwrap_err(), FmError::InvalidState);
    engine.submit(&mut regs, 0x01, &[]).unwrap();
    assert_eq!(engine.result(&regs).unwrap_err(), FmError::InvalidState);
    assert_eq!(engine.poll_background(&regs).unwrap_err(), FmError::InvalidState);
}

#[test]
fn mailbox_partial_register_payload_round_trip() {
    // Three bytes fill only part of the last 32-bit payload register.
    let mut regs = mailbox_registers::new_simulated(8);
    let mut engine = MailboxEngine::attach(&regs);
    engine.submit(&mut regs, 0x05, &[0x01, 0x02, 0x03]).unwrap();
    regs.device_complete(0);
    assert_eq!(engine.poll_once(&regs).unwrap(), PollProgress::Ready);
    let (code, payload) = engine.result(&regs).unwrap();
    assert_eq!(code, 0);
    assert_eq!(payload, vec![0x01, 0x02, 0x03]);
}

#[test]
fn mailbox_max_payload_boundary() {
    let mut regs = mailbox_registers::new_simulated(8);
    let mut engine = MailboxEngine::attach(&regs);
    let exact = vec![0x11u8; 256];
    assert!(engine.submit(&mut regs, 0x01, &exact).is_ok());
    regs.device_complete(0);
    engine.poll_once(&regs).unwrap();
    let (_, payload) = engine.result(&regs).unwrap();
    assert_eq!(payload, exact);

    let over = vec![0x11u8; 257];
    assert_eq!(engine.submit(&mut regs, 0x01, &over).unwrap_err(), FmError::PayloadTooLarge);
}

#[test]
fn mailbox_hardware_failure_code_maps_to_error() {
    let mut regs = mailbox_registers::new_simulated(8);
    let mut engine = MailboxEngine::attach(&regs);
    engine.submit(&mut regs, 0x01, &[0x10]).unwrap();
    regs.device_complete(4);
    assert_eq!(engine.poll_once(&regs).unwrap(), PollProgress::Ready);
    let (code, _) = engine.result(&regs).unwrap();
    assert_eq!(command_outcome(code), Err(FmError::HardwareReturnCode(4)));
    // Terminal for that command only: the mailbox is idle, the doorbell is
    // clear, and a new command is accepted.
    assert_eq!(engine.state(), MailboxState::Idle);
    assert!(engine.submit(&mut regs, 0x02, &[]).is_ok());
}

#[test]
fn mailbox_block_parse_and_attach() {
    let mut block = vec![0u8; 2080];
    put_le32(&mut block, 0, 12);  // payload-size field: two to the twelfth
    let regs = mailbox_registers::from_bytes(&block).unwrap();
    let engine = MailboxEngine::attach(&regs);
    // Capped at the payload region size.
    assert_eq!(engine.max_payload(), 2048);
    assert!(mailbox_registers::from_bytes(&block[0..100]).is_err());
}

#[test]
fn mailbox_located_through_register_file() {
    let mut arena = arena_with_caps(2);
    // Header 0: some other capability.  Header 1: the mailbox, whose block
    // fills the rest of the arena.
    put_le16(&mut arena, 16, 0x0001);
    put_le32(&mut arena, 20, 0x100);
    put_le32(&mut arena, 24, 0x10);
    put_le16(&mut arena, 32, 0x0002);
    put_le32(&mut arena, 36, 0x200);
    put_le32(&mut arena, 40, 2080);
    // Capabilities register of the mailbox block: payload-size field 9.
    put_le32(&mut arena, 0x200, 9);
    let file = MemoryDeviceRegisters::new(arena).unwrap();
    let regs = locate_mailbox(&file).unwrap();
    let engine = MailboxEngine::attach(&regs);
    assert_eq!(engine.max_payload(), 512);

    // Without a mailbox header the search reports NotFound; with a block
    // too short for the register layout, OutOfRange.
    let file2 = MemoryDeviceRegisters::new(arena_with_caps(0)).unwrap();
    assert_eq!(locate_mailbox(&file2).unwrap_err(), FmError::NotFound);
    let mut arena3 = arena_with_caps(1);
    put_le16(&mut arena3, 16, 0x0002);
    put_le32(&mut arena3, 20, 0x200);
    put_le32(&mut arena3, 24, 0x40);
    let file3 = MemoryDeviceRegisters::new(arena3).unwrap();
    assert_eq!(locate_mailbox(&file3).unwrap_err(), FmError::OutOfRange);
}

#[test]
fn mailbox_staged_command_rings_doorbell_last() {
    let mut regs = mailbox_registers::new_simulated(8);
    let mut engine = MailboxEngine::attach(&regs);
    engine.stage(&mut regs, 0x07, &[0x11, 0x22, 0x33]).unwrap();
    // Payload and Command are written; the start signal is not yet given.
    assert_eq!(engine.state(), MailboxState::Submitting);
    assert_eq!(regs.doorbell(), 0);
    assert_eq!(regs.command_opcode(), 0x07);
    assert_eq!(regs.command_payload_size(), 3);
    engine.ring_doorbell(&mut regs);
    assert_eq!(regs.doorbell(), 1);
    assert_eq!(engine.state(), MailboxState::DoorbellRung);
}
