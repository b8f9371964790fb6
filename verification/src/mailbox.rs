//! The mailbox register block and the doorbell-based command protocol engine.
//!
//! Register layout, a wire-exact memory contract (byte offsets inside the
//! mailbox capability block):
//!   - 0x00 Capabilities, 32-bit: payload size (bits 0..5, log2 of the byte
//!     count), doorbell-interrupt capable (5), background-complete-interrupt
//!     capable (6), interrupt message number (7..11), ready time (11..19),
//!     interface type (19..23).
//!   - 0x04 Control, 32-bit: doorbell (bit 0), doorbell interrupt mode (1),
//!     background-command-complete interrupt (2).
//!   - 0x08 Command, 64-bit: opcode (bits 0..16), payload size (16..37).
//!   - 0x10 Status, 64-bit: background-operation flag (bit 0), return code
//!     (32..48), vendor status (48..64).
//!   - 0x18 Background Command Status, 64-bit: last opcode (0..16), percent
//!     complete (16..23), return code (32..48), vendor status (48..64).
//!   - 0x20 Command Payload, 512 x 32-bit, shared by request and response.

use vstd::prelude::*;

use crate::bitfield::U32Field;
use crate::bitfield::U64Field;
use crate::bitfield::read_bits_u32;
use crate::bitfield::read_bits_u64;
use crate::bitfield::read_u32field;
use crate::bitfield::read_u64field;
use crate::bitfield::truncate_bits_u32;
use crate::bitfield::truncate_bits_u64;
use crate::bitfield::write_bits_u32;
use crate::bitfield::write_bits_u64;
use crate::bitfield::write_u32field;
use crate::bitfield::write_u64field;
use crate::bitfield::lemma_write_then_read_u32;
use crate::bitfield::lemma_write_then_read_u64;
use crate::bitfield::lemma_write_preserves_disjoint_u64;
use crate::bytes::spec_le32;
use crate::bytes::spec_le64;
use crate::bytes::read_le_u32;
use crate::bytes::read_le_u64;
use crate::bytes::u32_byte;
use crate::bytes::pack_u32_of_bytes;
use crate::bytes::extract_u32_byte;
use crate::bytes::lemma_u32_of_bytes_roundtrip;
use crate::error::FmError;
use crate::error::BACKGROUND_OPERATION_SENTINEL;
use crate::regfile::MemoryDeviceRegisters;
use crate::regfile::CXL_PRIMARY_MAILBOX_CAPABILITY_ID;

verus! {

/// Size of the shared payload region, in 32-bit registers.
pub const PAYLOAD_REGISTER_COUNT: usize = 512;

/// Size of the shared payload region, in bytes.
pub const PAYLOAD_REGION_BYTES: u32 = 2048;

/// Byte length of the register block up to and including the payload region.
pub const MAILBOX_BLOCK_BYTES: usize = 2080;

/// The raw mailbox register block: packed register values, mutated through
/// the bit-field accessors.  In production the same image is read from and
/// written back to mapped device memory; in tests it doubles as the simulated
/// register file.
#[allow(non_camel_case_types)]
#[derive(Debug)]
pub struct mailbox_registers {
    mb_capabilities: u32,
    mb_control: u32,
    command_register: u64,
    mb_status: u64,
    background_command_status_register: u64,
    command_payload_registers: Vec<u32>,
}

impl mailbox_registers {
    /// The payload region always holds exactly 512 registers.
    pub closed spec fn wf(&self) -> bool {
        self.command_payload_registers@.len() == 512
    }

    /// Raw Capabilities register value.
    pub closed spec fn spec_capabilities_raw(&self) -> u32 {
        self.mb_capabilities
    }

    /// Raw Control register value.
    pub closed spec fn spec_control_raw(&self) -> u32 {
        self.mb_control
    }

    /// Raw Command register value.
    pub closed spec fn spec_command_raw(&self) -> u64 {
        self.command_register
    }

    /// Raw Status register value.
    pub closed spec fn spec_status_raw(&self) -> u64 {
        self.mb_status
    }

    /// Raw Background Command Status register value.
    pub closed spec fn spec_background_raw(&self) -> u64 {
        self.background_command_status_register
    }

    /// The payload region as a sequence of 32-bit registers.
    pub closed spec fn spec_payload(&self) -> Seq<u32> {
        self.command_payload_registers@
    }

    /// Byte `i` of the shared payload region.
    pub open spec fn spec_payload_byte(&self, i: int) -> u8 {
        u32_byte(self.spec_payload()[i / 4], i % 4)
    }

    /// Capabilities: log2 of the advertised payload byte count.
    pub open spec fn spec_payload_size_field(&self) -> u32 {
        read_bits_u32(0, 5, self.spec_capabilities_raw())
    }

    /// Capabilities: the recommended minimum ready-time wait.
    pub open spec fn spec_ready_time(&self) -> u32 {
        read_bits_u32(11, 8, self.spec_capabilities_raw())
    }

    /// Control: the doorbell bit, set by the host, cleared by the device.
    pub open spec fn spec_doorbell(&self) -> u32 {
        read_bits_u32(0, 1, self.spec_control_raw())
    }

    /// Command: the opcode field.
    pub open spec fn spec_command_opcode(&self) -> u64 {
        read_bits_u64(0, 16, self.spec_command_raw())
    }

    /// Command: the payload-size field.
    pub open spec fn spec_command_payload_size(&self) -> u64 {
        read_bits_u64(16, 21, self.spec_command_raw())
    }

    /// Status: the background-operation-in-progress flag.
    pub open spec fn spec_status_background(&self) -> u64 {
        read_bits_u64(0, 1, self.spec_status_raw())
    }

    /// Status: the return code of the last completed command.
    pub open spec fn spec_return_code(&self) -> u64 {
        read_bits_u64(32, 16, self.spec_status_raw())
    }

    /// Background status: percent complete of the running operation.
    pub open spec fn spec_background_percent(&self) -> u64 {
        read_bits_u64(16, 7, self.spec_background_raw())
    }

    /// Background status: return code of the finished background operation.
    pub open spec fn spec_background_return_code(&self) -> u64 {
        read_bits_u64(32, 16, self.spec_background_raw())
    }

    /// Reads the doorbell bit.
    pub fn doorbell(&self) -> (r: u32)
        ensures
            r == self.spec_doorbell(),
    {
        read_u32field(&U32Field { offset: 0, bitwidth: 1 }, self.mb_control)
    }

    /// Reads the raw Control register, for callers that frame whole-register
    /// change.
    pub fn control_raw(&self) -> (r: u32)
        ensures
            r == self.spec_control_raw(),
    {
        self.mb_control
    }

    /// Reads the raw Command register.
    pub fn command_raw(&self) -> (r: u64)
        ensures
            r == self.spec_command_raw(),
    {
        self.command_register
    }

    /// Reads the Command register's opcode field.
    pub fn command_opcode(&self) -> (r: u64)
        ensures
            r == self.spec_command_opcode(),
    {
        read_u64field(&U64Field { offset: 0, bitwidth: 16 }, self.command_register)
    }

    /// Reads the Command register's payload-size field.
    pub fn command_payload_size(&self) -> (r: u64)
        ensures
            r == self.spec_command_payload_size(),
    {
        read_u64field(&U64Field { offset: 16, bitwidth: 21 }, self.command_register)
    }

    /// Reads the Status register's return code field.
    pub fn return_code(&self) -> (r: u64)
        ensures
            r == self.spec_return_code(),
    {
        read_u64field(&U64Field { offset: 32, bitwidth: 16 }, self.mb_status)
    }

    /// Reads the raw Capabilities register.
    pub fn capabilities_raw(&self) -> (r: u32)
        ensures
            r == self.spec_capabilities_raw(),
    {
        self.mb_capabilities
    }

    /// Reads the raw Status register.
    pub fn status_raw(&self) -> (r: u64)
        ensures
            r == self.spec_status_raw(),
    {
        self.mb_status
    }

    /// Reads the raw Background Command Status register.
    pub fn background_raw(&self) -> (r: u64)
        ensures
            r == self.spec_background_raw(),
    {
        self.background_command_status_register
    }

    /// Reads the Background Command Status register's percent-complete field.
    pub fn background_percent(&self) -> (r: u64)
        ensures
            r == self.spec_background_percent(),
    {
        read_u64field(&U64Field { offset: 16, bitwidth: 7 }, self.background_command_status_register)
    }

    /// Reads the Background Command Status register's return code field.
    pub fn background_return_code(&self) -> (r: u64)
        ensures
            r == self.spec_background_return_code(),
    {
        read_u64field(&U64Field { offset: 32, bitwidth: 16 }, self.background_command_status_register)
    }

    /// Builds an all-zero register image with the given raw Capabilities
    /// value, the in-memory simulated register file of the design notes.
    pub fn new_simulated(capabilities: u32) -> (regs: mailbox_registers)
        ensures
            regs.wf(),
            regs.spec_capabilities_raw() == capabilities,
            regs.spec_control_raw() == 0,
            regs.spec_command_raw() == 0,
            regs.spec_status_raw() == 0,
            regs.spec_background_raw() == 0,
            regs.spec_payload() == Seq::new(512, |i: int| 0u32),
    {
        let mut payload: Vec<u32> = Vec::new();
        while payload.len() < PAYLOAD_REGISTER_COUNT
            invariant
                payload@ =~= Seq::new(payload@.len(), |i: int| 0u32),
                payload@.len() <= 512,
            decreases 512 - payload@.len(),
        {
            payload.push(0);
        }
        proof {
            assert(payload@ =~= Seq::new(512, |i: int| 0u32));
        }
        mailbox_registers {
            mb_capabilities: capabilities,
            mb_control: 0,
            command_register: 0,
            mb_status: 0,
            background_command_status_register: 0,
            command_payload_registers: payload,
        }
    }

    /// Parses a mailbox register block out of the capability block bytes
    /// located by the device register file.  Fails with `OutOfRange` if the
    /// block is shorter than the fixed register layout.
    pub fn from_bytes(block: &[u8]) -> (r: Result<mailbox_registers, FmError>)
        ensures
            r is Ok <==> block@.len() >= 2080,
            r matches Ok(regs) ==> {
                &&& regs.wf()
                &&& regs.spec_capabilities_raw() == spec_le32(block@, 0)
                &&& regs.spec_control_raw() == spec_le32(block@, 4)
                &&& regs.spec_command_raw() == spec_le64(block@, 8)
                &&& regs.spec_status_raw() == spec_le64(block@, 0x10)
                &&& regs.spec_background_raw() == spec_le64(block@, 0x18)
                &&& forall|j: int|
                    0 <= j < 512 ==> regs.spec_payload()[j] == spec_le32(block@, 0x20 + 4 * j)
            },
            r is Err ==> r == Result::<mailbox_registers, FmError>::Err(FmError::OutOfRange),
    {
        if block.len() < MAILBOX_BLOCK_BYTES {
            return Err(FmError::OutOfRange);
        }
        let mut payload: Vec<u32> = Vec::new();
        let mut j: usize = 0;
        while j < 512
            invariant
                block@.len() >= 2080,
                j <= 512,
                payload@.len() == j,
                forall|k: int| 0 <= k < j ==> payload@[k] == spec_le32(block@, 0x20 + 4 * k),
            decreases 512 - j,
        {
            payload.push(read_le_u32(block, 0x20 + 4 * j));
            j = j + 1;
        }
        Ok(
            mailbox_registers {
                mb_capabilities: read_le_u32(block, 0),
                mb_control: read_le_u32(block, 4),
                command_register: read_le_u64(block, 8),
                mb_status: read_le_u64(block, 0x10),
                background_command_status_register: read_le_u64(block, 0x18),
                command_payload_registers: payload,
            },
        )
    }

    /// Models the device side finishing the outstanding command: the doorbell
    /// clears and the Status register reports `return_code`.  Command,
    /// Capabilities, Background Status and the payload region are untouched.
    pub fn device_complete(&mut self, return_code: u64)
        requires
            old(self).wf(),
            return_code < 0x1_0000,
        ensures
            final(self).wf(),
            final(self).spec_doorbell() == 0,
            final(self).spec_return_code() == return_code,
            final(self).spec_status_background() == 0,
            final(self).spec_control_raw() == write_bits_u32(
                0,
                1,
                old(self).spec_control_raw(),
                0,
            ),
            final(self).spec_status_raw() == write_bits_u64(32, 16, 0, return_code),
            final(self).spec_capabilities_raw() == old(self).spec_capabilities_raw(),
            final(self).spec_command_raw() == old(self).spec_command_raw(),
            final(self).spec_background_raw() == old(self).spec_background_raw(),
            final(self).spec_payload() == old(self).spec_payload(),
    {
        let mut ctrl = self.mb_control;
        write_u32field(&U32Field { offset: 0, bitwidth: 1 }, &mut ctrl, 0);
        self.mb_control = ctrl;
        let mut status: u64 = 0;
        write_u64field(&U64Field { offset: 32, bitwidth: 16 }, &mut status, return_code);
        self.mb_status = status;
        proof {
            lemma_write_then_read_u32(0, 1, old(self).spec_control_raw(), 0);
            assert(truncate_bits_u32(1, 0u32) == 0) by (bit_vector);
            lemma_write_then_read_u64(32, 16, 0u64, return_code);
            assert(truncate_bits_u64(16, return_code) == return_code) by (bit_vector)
                requires
                    return_code < 0x1_0000,
            ;
            lemma_write_preserves_disjoint_u64(32, 16, 0, 1, 0u64, return_code);
            assert(read_bits_u64(0, 1, 0u64) == 0) by (bit_vector);
        }
    }

    /// Models the device updating the Background Command Status register with
    /// a progress report.  Everything else is untouched.
    pub fn device_set_background_status(&mut self, percent: u64, return_code: u64)
        requires
            old(self).wf(),
            percent < 0x80,
            return_code < 0x1_0000,
        ensures
            final(self).wf(),
            final(self).spec_background_percent() == percent,
            final(self).spec_background_return_code() == return_code,
            final(self).spec_background_raw() == write_bits_u64(
                32,
                16,
                write_bits_u64(16, 7, 0, percent),
                return_code,
            ),
            final(self).spec_capabilities_raw() == old(self).spec_capabilities_raw(),
            final(self).spec_control_raw() == old(self).spec_control_raw(),
            final(self).spec_command_raw() == old(self).spec_command_raw(),
            final(self).spec_status_raw() == old(self).spec_status_raw(),
            final(self).spec_payload() == old(self).spec_payload(),
    {
        let mut bg: u64 = 0;
        write_u64field(&U64Field { offset: 16, bitwidth: 7 }, &mut bg, percent);
        write_u64field(&U64Field { offset: 32, bitwidth: 16 }, &mut bg, return_code);
        self.background_command_status_register = bg;
        proof {
            let b1 = write_bits_u64(16, 7, 0u64, percent);
            lemma_write_then_read_u64(16, 7, 0u64, percent);
            assert(truncate_bits_u64(7, percent) == percent) by (bit_vector)
                requires
                    percent < 0x80,
            ;
            lemma_write_preserves_disjoint_u64(32, 16, 16, 7, b1, return_code);
            lemma_write_then_read_u64(32, 16, b1, return_code);
            assert(truncate_bits_u64(16, return_code) == return_code) by (bit_vector)
                requires
                    return_code < 0x1_0000,
            ;
        }
    }
}

/// Typed view of the Capabilities register, unpacked by the bit-field
/// accessors.
#[allow(non_camel_case_types)]
#[derive(Clone, Copy, Debug)]
pub struct mailbox_capabilities_register {
    pub payload_size: u32,
    pub mb_doorbell_int_capable: u32,
    pub background_command_complete_interupt_capable: u32,
    pub intr_msg_number: u32,
    pub mb_ready_time: u32,
    pub interface_type: u32,
}

impl mailbox_capabilities_register {
    /// Unpacks the raw Capabilities register.
    pub fn from_raw(raw: u32) -> (c: mailbox_capabilities_register)
        ensures
            c.payload_size == read_bits_u32(0, 5, raw),
            c.mb_doorbell_int_capable == read_bits_u32(5, 1, raw),
            c.background_command_complete_interupt_capable == read_bits_u32(6, 1, raw),
            c.intr_msg_number == read_bits_u32(7, 4, raw),
            c.mb_ready_time == read_bits_u32(11, 8, raw),
            c.interface_type == read_bits_u32(19, 4, raw),
    {
        mailbox_capabilities_register {
            payload_size: read_u32field(&U32Field { offset: 0, bitwidth: 5 }, raw),
            mb_doorbell_int_capable: read_u32field(&U32Field { offset: 5, bitwidth: 1 }, raw),
            background_command_complete_interupt_capable: read_u32field(
                &U32Field { offset: 6, bitwidth: 1 },
                raw,
            ),
            intr_msg_number: read_u32field(&U32Field { offset: 7, bitwidth: 4 }, raw),
            mb_ready_time: read_u32field(&U32Field { offset: 11, bitwidth: 8 }, raw),
            interface_type: read_u32field(&U32Field { offset: 19, bitwidth: 4 }, raw),
        }
    }
}

/// Typed view of the Control register.
#[allow(non_camel_case_types)]
#[derive(Clone, Copy, Debug)]
pub struct mailbox_control_register {
    pub doorbell: u32,
    pub doorbell_interrupt_mode: u32,
    pub background_command_complete_interupt: u32,
}

impl mailbox_control_register {
    /// Unpacks the raw Control register.
    pub fn from_raw(raw: u32) -> (c: mailbox_control_register)
        ensures
            c.doorbell == read_bits_u32(0, 1, raw),
            c.doorbell_interrupt_mode == read_bits_u32(1, 1, raw),
            c.background_command_complete_interupt == read_bits_u32(2, 1, raw),
    {
        mailbox_control_register {
            doorbell: read_u32field(&U32Field { offset: 0, bitwidth: 1 }, raw),
            doorbell_interrupt_mode: read_u32field(&U32Field { offset: 1, bitwidth: 1 }, raw),
            background_command_complete_interupt: read_u32field(
                &U32Field { offset: 2, bitwidth: 1 },
                raw,
            ),
        }
    }
}

/// Typed view of the Command register.
#[allow(non_camel_case_types)]
#[derive(Clone, Copy, Debug)]
pub struct mailbox_command_register {
    pub opcode: u64,
    pub payload_size: u64,
}

impl mailbox_command_register {
    /// Unpacks the raw Command register.
    pub fn from_raw(raw: u64) -> (c: mailbox_command_register)
        ensures
            c.opcode == read_bits_u64(0, 16, raw),
            c.payload_size == read_bits_u64(16, 21, raw),
    {
        mailbox_command_register {
            opcode: read_u64field(&U64Field { offset: 0, bitwidth: 16 }, raw),
            payload_size: read_u64field(&U64Field { offset: 16, bitwidth: 21 }, raw),
        }
    }
}

/// Typed view of the Status register.
#[allow(non_camel_case_types)]
#[derive(Clone, Copy, Debug)]
pub struct mailbox_status_register {
    pub background_operation_status: u64,
    pub return_code: u64,
    pub vendor_specific_ext_status: u64,
}

impl mailbox_status_register {
    /// Unpacks the raw Status register.
    pub fn from_raw(raw: u64) -> (c: mailbox_status_register)
        ensures
            c.background_operation_status == read_bits_u64(0, 1, raw),
            c.return_code == read_bits_u64(32, 16, raw),
            c.vendor_specific_ext_status == read_bits_u64(48, 16, raw),
    {
        mailbox_status_register {
            background_operation_status: read_u64field(&U64Field { offset: 0, bitwidth: 1 }, raw),
            return_code: read_u64field(&U64Field { offset: 32, bitwidth: 16 }, raw),
            vendor_specific_ext_status: read_u64field(&U64Field { offset: 48, bitwidth: 16 }, raw),
        }
    }
}

/// Typed view of the Background Command Status register.
#[allow(non_camel_case_types)]
#[derive(Clone, Copy, Debug)]
pub struct mailbox_background_command_status_register {
    pub last_opcode: u64,
    pub percent_complete: u64,
    pub return_code: u64,
    pub vendor_specific_ext_status: u64,
}

impl mailbox_background_command_status_register {
    /// Unpacks the raw Background Command Status register.
    pub fn from_raw(raw: u64) -> (c: mailbox_background_command_status_register)
        ensures
            c.last_opcode == read_bits_u64(0, 16, raw),
            c.percent_complete == read_bits_u64(16, 7, raw),
            c.return_code == read_bits_u64(32, 16, raw),
            c.vendor_specific_ext_status == read_bits_u64(48, 16, raw),
    {
        mailbox_background_command_status_register {
            last_opcode: read_u64field(&U64Field { offset: 0, bitwidth: 16 }, raw),
            percent_complete: read_u64field(&U64Field { offset: 16, bitwidth: 7 }, raw),
            return_code: read_u64field(&U64Field { offset: 32, bitwidth: 16 }, raw),
            vendor_specific_ext_status: read_u64field(&U64Field { offset: 48, bitwidth: 16 }, raw),
        }
    }
}

/// The condition under which the register file yields a mailbox: some first
/// capability header carries the well-known mailbox id, its block lies
/// inside the arena, and the block is long enough for the fixed register
/// layout.
pub open spec fn spec_mailbox_located(file: &MemoryDeviceRegisters, i: int) -> bool {
    &&& file.spec_header_ok(i)
    &&& file.spec_header_id(i) == CXL_PRIMARY_MAILBOX_CAPABILITY_ID
    &&& forall|j: int| 0 <= j < i ==> file.spec_header_id(j) != CXL_PRIMARY_MAILBOX_CAPABILITY_ID
    &&& file.spec_header_offset(i) + file.spec_header_length(i) <= 4096
    &&& file.spec_header_length(i) >= 2080
}

/// Locates the mailbox capability in the device register file by its
/// well-known capability id and reinterprets its block as the mailbox
/// register block.  Fails with `NotFound` when no header carries the id,
/// and with `OutOfRange` when the block leaves the arena or is shorter than
/// the register layout.
pub fn locate_mailbox(file: &MemoryDeviceRegisters) -> (r: Result<mailbox_registers, FmError>)
    requires
        file.wf(),
    ensures
        r is Ok <==> exists|i: int| spec_mailbox_located(file, i),
        r matches Ok(regs) ==> exists|i: int|
            {
                &&& #[trigger] spec_mailbox_located(file, i)
                &&& regs.wf()
                &&& regs.spec_capabilities_raw() == spec_le32(
                    file.spec_arena(),
                    file.spec_header_offset(i) as int,
                )
                &&& regs.spec_control_raw() == spec_le32(
                    file.spec_arena(),
                    file.spec_header_offset(i) + 4,
                )
                &&& regs.spec_command_raw() == spec_le64(
                    file.spec_arena(),
                    file.spec_header_offset(i) + 8,
                )
                &&& regs.spec_status_raw() == spec_le64(
                    file.spec_arena(),
                    file.spec_header_offset(i) + 0x10,
                )
                &&& regs.spec_background_raw() == spec_le64(
                    file.spec_arena(),
                    file.spec_header_offset(i) + 0x18,
                )
                &&& forall|j: int|
                    0 <= j < 512 ==> regs.spec_payload()[j] == spec_le32(
                        file.spec_arena(),
                        file.spec_header_offset(i) + 0x20 + 4 * j,
                    )
            },
        r is Err ==> r == Result::<mailbox_registers, FmError>::Err(FmError::NotFound) || r
            == Result::<mailbox_registers, FmError>::Err(FmError::OutOfRange),
{
    proof {
        file.lemma_arena_len();
    }
    let i = match file.find_capability(CXL_PRIMARY_MAILBOX_CAPABILITY_ID) {
        None => {
            proof {
                assert forall|i2: int| !spec_mailbox_located(file, i2) by {
                    if spec_mailbox_located(file, i2) {
                        assert(file.spec_header_id(i2) == CXL_PRIMARY_MAILBOX_CAPABILITY_ID);
                    }
                }
            }
            return Err(FmError::NotFound);
        },
        Some(i) => i,
    };
    let block = match file.capability_block(i) {
        Err(e) => {
            proof {
                assert forall|i2: int| !spec_mailbox_located(file, i2) by {
                    if spec_mailbox_located(file, i2) {
                        if i2 < i as int {
                            assert(file.spec_header_id(i2) != CXL_PRIMARY_MAILBOX_CAPABILITY_ID);
                        } else if i2 > i as int {
                            assert(file.spec_header_id(i as int)
                                != CXL_PRIMARY_MAILBOX_CAPABILITY_ID);
                        }
                    }
                }
            }
            return Err(e);
        },
        Ok(b) => b,
    };
    match mailbox_registers::from_bytes(block.as_slice()) {
        Err(e) => {
            proof {
                assert forall|i2: int| !spec_mailbox_located(file, i2) by {
                    if spec_mailbox_located(file, i2) {
                        if i2 < i as int {
                            assert(file.spec_header_id(i2) != CXL_PRIMARY_MAILBOX_CAPABILITY_ID);
                        } else if i2 > i as int {
                            assert(file.spec_header_id(i as int)
                                != CXL_PRIMARY_MAILBOX_CAPABILITY_ID);
                        } else {
                            assert(block@ == file.spec_arena().subrange(
                                file.spec_header_offset(i as int) as int,
                                file.spec_header_offset(i as int) + file.spec_header_length(
                                    i as int,
                                ),
                            ));
                            assert(block@.len() == file.spec_header_length(i as int));
                        }
                    }
                }
            }
            Err(e)
        },
        Ok(regs) => {
            proof {
                assert(block@ == file.spec_arena().subrange(
                    file.spec_header_offset(i as int) as int,
                    file.spec_header_offset(i as int) + file.spec_header_length(i as int),
                ));
                assert(block@.len() == file.spec_header_length(i as int));
                assert(spec_mailbox_located(file, i as int));
            }
            Ok(regs)
        },
    }
}

/// Protocol states of the mailbox engine.  The doorbell can only be rung
/// from `Submitting`, which is only reached after the payload and the
/// Command register are written: the payload/command-before-doorbell
/// ordering is enforced by construction.
#[derive(Clone, Copy, Debug, PartialEq, Eq, Structural)]
pub enum MailboxState {
    Idle,
    Submitting,
    DoorbellRung,
    Polling,
    Completed,
    BackgroundRunning,
    BackgroundCompleted,
}

/// What one observation of the registers showed.
#[derive(Clone, Copy, Debug, PartialEq, Eq, Structural)]
pub enum PollProgress {
    /// The doorbell is still set (or the background operation still runs).
    Pending,
    /// The command completed; the result can be read.
    Ready,
    /// The command continues as a background operation.
    Background,
}

/// The advertised maximum payload in bytes: two to the power of the
/// Capabilities payload-size field, capped at the payload region size.
pub open spec fn spec_effective_max_payload(caps: u32) -> u32 {
    if read_bits_u32(0, 5, caps) >= 11 {
        2048u32
    } else {
        1u32 << read_bits_u32(0, 5, caps)
    }
}

/// The submit/poll/complete command state machine.  It holds no register
/// value itself: every observation and write goes through the register
/// block handed to each call, so independent devices can be driven fully in
/// parallel.  Exactly one command is in flight per mailbox: a submit while
/// the doorbell is set is refused with `Busy`, never queued.
pub struct MailboxEngine {
    state: MailboxState,
    max_payload: u32,
}

impl MailboxEngine {
    /// Current protocol state.
    pub closed spec fn spec_state(&self) -> MailboxState {
        self.state
    }

    /// Advertised maximum payload length in bytes, read once at attach.
    pub closed spec fn spec_max_payload(&self) -> u32 {
        self.max_payload
    }

    /// The maximum payload never exceeds the shared payload region.
    pub open spec fn inv(&self) -> bool {
        self.spec_max_payload() <= 2048
    }

    /// Current protocol state.
    pub fn state(&self) -> (s: MailboxState)
        ensures
            s == self.spec_state(),
    {
        self.state
    }

    /// Advertised maximum payload length in bytes.
    pub fn max_payload(&self) -> (m: u32)
        ensures
            m == self.spec_max_payload(),
    {
        self.max_payload
    }

    /// Attaches to a mailbox: reads the Capabilities register once and
    /// starts in `Idle`.
    pub fn attach(regs: &mailbox_registers) -> (e: MailboxEngine)
        ensures
            e.inv(),
            e.spec_state() == MailboxState::Idle,
            e.spec_max_payload() == spec_effective_max_payload(regs.spec_capabilities_raw()),
    {
        let caps = mailbox_capabilities_register::from_raw(regs.capabilities_raw());
        let n = caps.payload_size;
        let m: u32 = if n >= 11 {
            PAYLOAD_REGION_BYTES
        } else {
            proof {
                assert(1u32 << n <= 2048) by (bit_vector)
                    requires
                        n < 11,
                ;
            }
            1u32 << n
        };
        MailboxEngine { state: MailboxState::Idle, max_payload: m }
    }

    /// Writes the payload into the shared region and the opcode and length
    /// into the Command register, without ringing the doorbell.  Fails with
    /// `Busy` if the doorbell is set, and with `PayloadTooLarge` if the
    /// payload exceeds the advertised maximum; in both cases no register is
    /// written.
    pub fn stage(
        &mut self,
        regs: &mut mailbox_registers,
        opcode: u64,
        payload: &[u8],
    ) -> (r: Result<(), FmError>)
        requires
            old(regs).wf(),
            old(self).inv(),
        ensures
            final(regs).wf(),
            final(self).inv(),
            final(self).spec_max_payload() == old(self).spec_max_payload(),
            old(regs).spec_doorbell() != 0 ==> {
                &&& r == Result::<(), FmError>::Err(FmError::Busy)
                &&& *final(regs) == *old(regs)
                &&& *final(self) == *old(self)
            },
            old(regs).spec_doorbell() == 0 && payload@.len() > old(self).spec_max_payload() ==> {
                &&& r == Result::<(), FmError>::Err(FmError::PayloadTooLarge)
                &&& *final(regs) == *old(regs)
                &&& *final(self) == *old(self)
            },
            old(regs).spec_doorbell() == 0 && payload@.len() <= old(self).spec_max_payload() ==> {
                &&& r is Ok
                &&& final(self).spec_state() == MailboxState::Submitting
                &&& final(regs).spec_doorbell() == 0
                &&& final(regs).spec_command_opcode() == truncate_bits_u64(16, opcode)
                &&& final(regs).spec_command_payload_size() == payload@.len()
                &&& forall|i: int|
                    0 <= i < payload@.len() ==> final(regs).spec_payload_byte(i) == payload@[i]
                &&& final(regs).spec_capabilities_raw() == old(regs).spec_capabilities_raw()
                &&& final(regs).spec_control_raw() == old(regs).spec_control_raw()
                &&& final(regs).spec_status_raw() == old(regs).spec_status_raw()
                &&& final(regs).spec_background_raw() == old(regs).spec_background_raw()
            },
    {
        if regs.doorbell() != 0 {
            return Err(FmError::Busy);
        }
        if payload.len() > self.max_payload as usize {
            return Err(FmError::PayloadTooLarge);
        }
        let len: usize = payload.len();
        let dword_count: usize = (len + 3) / 4;
        let mut j: usize = 0;
        while j < dword_count
            invariant
                regs.wf(),
                len == payload@.len(),
                len <= 2048,
                dword_count == (len + 3) / 4,
                j <= dword_count,
                regs.spec_capabilities_raw() == old(regs).spec_capabilities_raw(),
                regs.spec_control_raw() == old(regs).spec_control_raw(),
                regs.spec_command_raw() == old(regs).spec_command_raw(),
                regs.spec_status_raw() == old(regs).spec_status_raw(),
                regs.spec_background_raw() == old(regs).spec_background_raw(),
                forall|i: int|
                    0 <= i < 4 * j && i < len ==> regs.spec_payload_byte(i) == payload@[i],
            decreases dword_count - j,
        {
            let base: usize = 4 * j;
            let b0 = payload[base];
            let b1 = if base + 1 < len {
                payload[base + 1]
            } else {
                0
            };
            let b2 = if base + 2 < len {
                payload[base + 2]
            } else {
                0
            };
            let b3 = if base + 3 < len {
                payload[base + 3]
            } else {
                0
            };
            let d = pack_u32_of_bytes(b0, b1, b2, b3);
            regs.command_payload_registers[j] = d;
            proof {
                lemma_u32_of_bytes_roundtrip(b0, b1, b2, b3);
                assert forall|i: int| 0 <= i < 4 * (j + 1) && i < len implies regs.spec_payload_byte(
                    i,
                ) == payload@[i] by {
                    if i < 4 * j {
                        assert(i / 4 < j);
                    } else {
                        assert(i / 4 == j);
                        assert(i % 4 == i - 4 * j);
                    }
                }
            }
            j = j + 1;
        }
        let mut cmd = regs.command_register;
        write_u64field(&U64Field { offset: 0, bitwidth: 16 }, &mut cmd, opcode);
        write_u64field(&U64Field { offset: 16, bitwidth: 21 }, &mut cmd, len as u64);
        regs.command_register = cmd;
        self.state = MailboxState::Submitting;
        proof {
            let c1 = write_bits_u64(0, 16, old(regs).spec_command_raw(), opcode);
            lemma_write_then_read_u64(0, 16, old(regs).spec_command_raw(), opcode);
            lemma_write_preserves_disjoint_u64(16, 21, 0, 16, c1, len as u64);
            lemma_write_then_read_u64(16, 21, c1, len as u64);
            let l = len as u64;
            assert(truncate_bits_u64(21, l) == l) by (bit_vector)
                requires
                    l < 0x20_0000,
            ;
            assert forall|i: int| 0 <= i < payload@.len() implies regs.spec_payload_byte(i)
                == payload@[i] by {
                assert(4 * ((len + 3) / 4) >= len);
            }
        }
        Ok(())
    }

    /// Sets the doorbell, the hardware's start signal.  Only reachable from
    /// `Submitting`, after the payload and the Command register are written.
    pub fn ring_doorbell(&mut self, regs: &mut mailbox_registers)
        requires
            old(regs).wf(),
            old(self).inv(),
            old(self).spec_state() == MailboxState::Submitting,
        ensures
            final(regs).wf(),
            final(self).inv(),
            final(self).spec_max_payload() == old(self).spec_max_payload(),
            final(self).spec_state() == MailboxState::DoorbellRung,
            final(regs).spec_doorbell() == 1,
            final(regs).spec_control_raw() == write_bits_u32(
                0,
                1,
                old(regs).spec_control_raw(),
                1,
            ),
            final(regs).spec_capabilities_raw() == old(regs).spec_capabilities_raw(),
            final(regs).spec_command_raw() == old(regs).spec_command_raw(),
            final(regs).spec_status_raw() == old(regs).spec_status_raw(),
            final(regs).spec_background_raw() == old(regs).spec_background_raw(),
            final(regs).spec_payload() == old(regs).spec_payload(),
    {
        let mut ctrl = regs.mb_control;
        write_u32field(&U32Field { offset: 0, bitwidth: 1 }, &mut ctrl, 1);
        regs.mb_control = ctrl;
        self.state = MailboxState::DoorbellRung;
        proof {
            lemma_write_then_read_u32(0, 1, old(regs).spec_control_raw(), 1);
            assert(truncate_bits_u32(1, 1u32) == 1) by (bit_vector);
        }
    }

    /// Submits a command: stages the payload and the Command register, then
    /// rings the doorbell.  A failed submit has made no register write at
    /// all; in particular it has not rung the doorbell.
    pub fn submit(
        &mut self,
        regs: &mut mailbox_registers,
        opcode: u64,
        payload: &[u8],
    ) -> (r: Result<(), FmError>)
        requires
            old(regs).wf(),
            old(self).inv(),
        ensures
            final(regs).wf(),
            final(self).inv(),
            final(self).spec_max_payload() == old(self).spec_max_payload(),
            old(regs).spec_doorbell() != 0 ==> {
                &&& r == Result::<(), FmError>::Err(FmError::Busy)
                &&& *final(regs) == *old(regs)
                &&& *final(self) == *old(self)
            },
            old(regs).spec_doorbell() == 0 && payload@.len() > old(self).spec_max_payload() ==> {
                &&& r == Result::<(), FmError>::Err(FmError::PayloadTooLarge)
                &&& *final(regs) == *old(regs)
                &&& *final(self) == *old(self)
            },
            old(regs).spec_doorbell() == 0 && payload@.len() <= old(self).spec_max_payload() ==> {
                &&& r is Ok
                &&& final(self).spec_state() == MailboxState::DoorbellRung
                &&& final(regs).spec_doorbell() == 1
                &&& final(regs).spec_command_opcode() == truncate_bits_u64(16, opcode)
                &&& final(regs).spec_command_payload_size() == payload@.len()
                &&& forall|i: int|
                    0 <= i < payload@.len() ==> final(regs).spec_payload_byte(i) == payload@[i]
                &&& final(regs).spec_capabilities_raw() == old(regs).spec_capabilities_raw()
                &&& final(regs).spec_status_raw() == old(regs).spec_status_raw()
                &&& final(regs).spec_background_raw() == old(regs).spec_background_raw()
            },
    {
        match self.stage(regs, opcode, payload) {
            Err(e) => Err(e),
            Ok(()) => {
                self.ring_doorbell(regs);
                Ok(())
            },
        }
    }

    /// One observation of the doorbell.  While the doorbell is set the
    /// command is pending; on doorbell-clear the Status register decides
    /// between direct completion and a background operation, by the
    /// background-operation sentinel return code.
    pub fn poll_once(&mut self, regs: &mailbox_registers) -> (r: Result<PollProgress, FmError>)
        requires
            old(self).inv(),
        ensures
            final(self).inv(),
            final(self).spec_max_payload() == old(self).spec_max_payload(),
            !(old(self).spec_state() == MailboxState::DoorbellRung || old(self).spec_state()
                == MailboxState::Polling) ==> {
                &&& r == Result::<PollProgress, FmError>::Err(FmError::InvalidState)
                &&& *final(self) == *old(self)
            },
            (old(self).spec_state() == MailboxState::DoorbellRung || old(self).spec_state()
                == MailboxState::Polling) ==> {
                &&& regs.spec_doorbell() != 0 ==> r == Result::<PollProgress, FmError>::Ok(
                    PollProgress::Pending,
                ) && final(self).spec_state() == MailboxState::Polling
                &&& regs.spec_doorbell() == 0 && regs.spec_return_code()
                    == BACKGROUND_OPERATION_SENTINEL ==> r == Result::<PollProgress, FmError>::Ok(
                    PollProgress::Background,
                ) && final(self).spec_state() == MailboxState::BackgroundRunning
                &&& regs.spec_doorbell() == 0 && regs.spec_return_code()
                    != BACKGROUND_OPERATION_SENTINEL ==> r == Result::<PollProgress, FmError>::Ok(
                    PollProgress::Ready,
                ) && final(self).spec_state() == MailboxState::Completed
            },
    {
        if self.state == MailboxState::DoorbellRung || self.state == MailboxState::Polling {
            if regs.doorbell() != 0 {
                self.state = MailboxState::Polling;
                Ok(PollProgress::Pending)
            } else if regs.return_code() == BACKGROUND_OPERATION_SENTINEL {
                self.state = MailboxState::BackgroundRunning;
                Ok(PollProgress::Background)
            } else {
                self.state = MailboxState::Completed;
                Ok(PollProgress::Ready)
            }
        } else {
            Err(FmError::InvalidState)
        }
    }

    /// Polls with a caller-supplied attempt budget, the authoritative bound;
    /// the advertised ready time is only a recommended minimum wait.  A
    /// still-set doorbell, or an exhausted budget, is `Timeout`.  Real
    /// polling re-reads device memory between sleeps, so the retry loop
    /// lives with the caller that refreshes the register image; against one
    /// fixed image a single observation decides.
    pub fn poll(&mut self, regs: &mailbox_registers, attempts: u64) -> (r: Result<
        PollProgress,
        FmError,
    >)
        requires
            old(self).inv(),
        ensures
            final(self).inv(),
            final(self).spec_max_payload() == old(self).spec_max_payload(),
            attempts == 0 ==> r == Result::<PollProgress, FmError>::Err(FmError::Timeout) && *final(self) == *old(self),
            attempts > 0 && !(old(self).spec_state() == MailboxState::DoorbellRung || old(self).spec_state() == MailboxState::Polling) ==> {
                &&& r == Result::<PollProgress, FmError>::Err(FmError::InvalidState)
                &&& *final(self) == *old(self)
            },
            attempts > 0 && (old(self).spec_state() == MailboxState::DoorbellRung || old(self).spec_state() == MailboxState::Polling) ==> {
                &&& regs.spec_doorbell() != 0 ==> r == Result::<PollProgress, FmError>::Err(
                    FmError::Timeout,
                ) && final(self).spec_state() == MailboxState::Polling
                &&& regs.spec_doorbell() == 0 && regs.spec_return_code()
                    == BACKGROUND_OPERATION_SENTINEL ==> r == Result::<PollProgress, FmError>::Ok(
                    PollProgress::Background,
                ) && final(self).spec_state() == MailboxState::BackgroundRunning
                &&& regs.spec_doorbell() == 0 && regs.spec_return_code()
                    != BACKGROUND_OPERATION_SENTINEL ==> r == Result::<PollProgress, FmError>::Ok(
                    PollProgress::Ready,
                ) && final(self).spec_state() == MailboxState::Completed
            },
    {
        if attempts == 0 {
            return Err(FmError::Timeout);
        }
        match self.poll_once(regs) {
            Ok(PollProgress::Pending) => Err(FmError::Timeout),
            other => other,
        }
    }

    /// One observation of the Background Command Status register.  The
    /// operation is terminal at one hundred percent complete.
    pub fn poll_background(&mut self, regs: &mailbox_registers) -> (r: Result<
        PollProgress,
        FmError,
    >)
        requires
            old(self).inv(),
        ensures
            final(self).inv(),
            final(self).spec_max_payload() == old(self).spec_max_payload(),
            old(self).spec_state() != MailboxState::BackgroundRunning ==> {
                &&& r == Result::<PollProgress, FmError>::Err(FmError::InvalidState)
                &&& *final(self) == *old(self)
            },
            old(self).spec_state() == MailboxState::BackgroundRunning ==> {
                &&& regs.spec_background_percent() < 100 ==> r == Result::<
                    PollProgress,
                    FmError,
                >::Ok(PollProgress::Pending) && *final(self) == *old(self)
                &&& regs.spec_background_percent() >= 100 ==> r == Result::<
                    PollProgress,
                    FmError,
                >::Ok(PollProgress::Ready) && final(self).spec_state()
                    == MailboxState::BackgroundCompleted
            },
    {
        if self.state == MailboxState::BackgroundRunning {
            if regs.background_percent() < 100 {
                Ok(PollProgress::Pending)
            } else {
                self.state = MailboxState::BackgroundCompleted;
                Ok(PollProgress::Ready)
            }
        } else {
            Err(FmError::InvalidState)
        }
    }

    /// Returns the final return code and the response bytes copied out of
    /// the shared payload region, up to the length the Command register
    /// advertises (the region aliases request and response).  Valid only in
    /// `Completed` or `BackgroundCompleted`; afterwards the engine is back
    /// in `Idle`.
    pub fn result(&mut self, regs: &mailbox_registers) -> (r: Result<(u64, Vec<u8>), FmError>)
        requires
            regs.wf(),
            old(self).inv(),
        ensures
            final(self).inv(),
            final(self).spec_max_payload() == old(self).spec_max_payload(),
            !(old(self).spec_state() == MailboxState::Completed || old(self).spec_state()
                == MailboxState::BackgroundCompleted) ==> {
                &&& r == Result::<(u64, Vec<u8>), FmError>::Err(FmError::InvalidState)
                &&& *final(self) == *old(self)
            },
            (old(self).spec_state() == MailboxState::Completed || old(self).spec_state()
                == MailboxState::BackgroundCompleted) ==> {
                &&& r matches Ok(p) && {
                    &&& old(self).spec_state() == MailboxState::Completed ==> p.0
                        == regs.spec_return_code()
                    &&& old(self).spec_state() == MailboxState::BackgroundCompleted ==> p.0
                        == regs.spec_background_return_code()
                    &&& p.1@.len() == (if regs.spec_command_payload_size() > 2048 {
                        2048int
                    } else {
                        regs.spec_command_payload_size() as int
                    })
                    &&& forall|i: int| 0 <= i < p.1@.len() ==> p.1@[i] == regs.spec_payload_byte(i)
                }
                &&& final(self).spec_state() == MailboxState::Idle
            },
    {
        if !(self.state == MailboxState::Completed || self.state
            == MailboxState::BackgroundCompleted) {
            return Err(FmError::InvalidState);
        }
        let code = if self.state == MailboxState::Completed {
            regs.return_code()
        } else {
            regs.background_return_code()
        };
        let len64 = regs.command_payload_size();
        let len: usize = if len64 > 2048 {
            2048
        } else {
            len64 as usize
        };
        let mut out: Vec<u8> = Vec::new();
        let mut i: usize = 0;
        while i < len
            invariant
                regs.wf(),
                len <= 2048,
                i <= len,
                out@.len() == i,
                forall|k: int| 0 <= k < i ==> out@[k] == regs.spec_payload_byte(k),
            decreases len - i,
        {
            let d = regs.command_payload_registers[i / 4];
            out.push(extract_u32_byte(d, i % 4));
            i = i + 1;
        }
        self.state = MailboxState::Idle;
        Ok((code, out))
    }
}

} // verus!
