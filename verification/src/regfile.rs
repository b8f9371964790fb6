//! The typed, bounds-checked overlay of the device register file: a fixed
//! 4096-byte arena beginning with the Device Capabilities Array Register
//! (the authoritative capability count), followed by that many Device
//! Capability Header entries of 16 bytes each, every one naming a capability
//! id and an (offset, length) into the arena.
//!
//! Iteration is bounded by the reported count, never by arena capacity, and
//! every (offset, length) is checked against the arena bounds, guarding
//! against a corrupted or hostile device.

use vstd::prelude::*;

use crate::bytes::read_le_u16;
use crate::bytes::read_le_u32;
use crate::bytes::spec_le16;
use crate::bytes::spec_le32;
use crate::error::FmError;

verus! {

/// Size of the register file arena, in bytes.
pub const DEVICE_REGISTER_ARENA_BYTES: usize = 4096;

/// Byte offset of the first Device Capability Header entry.
pub const CAPABILITY_HEADERS_START: usize = 16;

/// Well-known capability id of the primary mailbox.
pub const CXL_PRIMARY_MAILBOX_CAPABILITY_ID: u16 = 0x0002;

/// Typed view of the Device Capabilities Array Register at the start of the
/// arena: capability id at byte 0, version at byte 2, capability count at
/// byte 4.
#[allow(non_camel_case_types)]
#[derive(Clone, Copy, Debug)]
pub struct DEVICE_CAPABILITIES_ARRAY_REGISTER {
    pub capability_id: u16,
    pub version: u8,
    pub capabilities_count: u16,
}

/// Typed view of one Device Capability Header entry: capability id at byte
/// 0, version at byte 2, block offset at byte 4, block length at byte 8.
#[allow(non_camel_case_types)]
#[derive(Clone, Copy, Debug)]
pub struct DEVICE_CAPABILITIES_HEADER {
    pub capability_id: u16,
    pub version: u8,
    pub offset: u32,
    pub length: u32,
}

/// The device register file: the 4096-byte arena read from the device's
/// mapped register block, wrapped behind bounds-checked accessors.
#[allow(non_camel_case_types)]
pub struct MemoryDeviceRegisters {
    arena: Vec<u8>,
}

impl MemoryDeviceRegisters {
    /// The arena always holds exactly 4096 bytes.
    pub closed spec fn wf(&self) -> bool {
        self.arena@.len() == 4096
    }

    /// The raw arena bytes.
    pub closed spec fn spec_arena(&self) -> Seq<u8> {
        self.arena@
    }

    /// The authoritative capability count, from the array register.
    pub open spec fn spec_capability_count(&self) -> u16 {
        spec_le16(self.spec_arena(), 4)
    }

    /// Header `i` lies inside the arena.
    pub open spec fn spec_header_in_arena(i: int) -> bool {
        16 + 16 * i + 16 <= 4096
    }

    /// Header `i` is both reported by the count and inside the arena.
    pub open spec fn spec_header_ok(&self, i: int) -> bool {
        0 <= i < self.spec_capability_count() && Self::spec_header_in_arena(i)
    }

    /// Capability id of header `i`.
    pub open spec fn spec_header_id(&self, i: int) -> u16 {
        spec_le16(self.spec_arena(), 16 + 16 * i)
    }

    /// Version of header `i`.
    pub open spec fn spec_header_version(&self, i: int) -> u8 {
        self.spec_arena()[16 + 16 * i + 2]
    }

    /// Block offset of header `i`, in bytes from the arena start.
    pub open spec fn spec_header_offset(&self, i: int) -> u32 {
        spec_le32(self.spec_arena(), 16 + 16 * i + 4)
    }

    /// Block length of header `i`, in bytes.
    pub open spec fn spec_header_length(&self, i: int) -> u32 {
        spec_le32(self.spec_arena(), 16 + 16 * i + 8)
    }

    /// Law: the arena of a well-formed register file holds exactly 4096
    /// bytes.
    pub proof fn lemma_arena_len(&self)
        requires
            self.wf(),
        ensures
            self.spec_arena().len() == 4096,
    {
    }

    /// Wraps a register file arena.  Fails with `OutOfRange` unless the
    /// arena is exactly 4096 bytes.
    pub fn new(arena: Vec<u8>) -> (r: Result<MemoryDeviceRegisters, FmError>)
        ensures
            r is Ok <==> arena@.len() == 4096,
            r matches Ok(m) ==> m.wf() && m.spec_arena() == arena@,
            r is Err ==> r == Result::<MemoryDeviceRegisters, FmError>::Err(FmError::OutOfRange),
    {
        if arena.len() == 4096 {
            Ok(MemoryDeviceRegisters { arena })
        } else {
            Err(FmError::OutOfRange)
        }
    }

    /// Reads the Device Capabilities Array Register.
    pub fn device_capabilities_array(&self) -> (r: DEVICE_CAPABILITIES_ARRAY_REGISTER)
        requires
            self.wf(),
        ensures
            r.capability_id == spec_le16(self.spec_arena(), 0),
            r.version == self.spec_arena()[2],
            r.capabilities_count == self.spec_capability_count(),
    {
        DEVICE_CAPABILITIES_ARRAY_REGISTER {
            capability_id: read_le_u16(self.arena.as_slice(), 0),
            version: self.arena[2],
            capabilities_count: read_le_u16(self.arena.as_slice(), 4),
        }
    }

    /// The single source of truth for iteration bounds.
    pub fn capability_count(&self) -> (r: u16)
        requires
            self.wf(),
        ensures
            r == self.spec_capability_count(),
    {
        read_le_u16(self.arena.as_slice(), 4)
    }

    /// Returns header `i`: its capability id, offset and length.  Fails with
    /// `OutOfRange` if `i` is not below the reported count, or the header
    /// itself would lie outside the arena.
    pub fn capability_header(&self, i: u16) -> (r: Result<DEVICE_CAPABILITIES_HEADER, FmError>)
        requires
            self.wf(),
        ensures
            r is Ok <==> self.spec_header_ok(i as int),
            r matches Ok(h) ==> {
                &&& h.capability_id == self.spec_header_id(i as int)
                &&& h.version == self.spec_header_version(i as int)
                &&& h.offset == self.spec_header_offset(i as int)
                &&& h.length == self.spec_header_length(i as int)
            },
            r is Err ==> r == Result::<DEVICE_CAPABILITIES_HEADER, FmError>::Err(
                FmError::OutOfRange,
            ),
    {
        if i >= self.capability_count() {
            return Err(FmError::OutOfRange);
        }
        let base: usize = 16 + 16 * (i as usize);
        if base + 16 > 4096 {
            return Err(FmError::OutOfRange);
        }
        Ok(
            DEVICE_CAPABILITIES_HEADER {
                capability_id: read_le_u16(self.arena.as_slice(), base),
                version: self.arena[base + 2],
                offset: read_le_u32(self.arena.as_slice(), base + 4),
                length: read_le_u32(self.arena.as_slice(), base + 8),
            },
        )
    }

    /// Returns a read-only copy of capability block `i`: `length` bytes at
    /// `offset` inside the arena.  Fails with `OutOfRange` if `i` is not
    /// below the reported count, or the block exceeds the arena bounds.
    pub fn capability_block(&self, i: u16) -> (r: Result<Vec<u8>, FmError>)
        requires
            self.wf(),
        ensures
            r is Ok <==> self.spec_header_ok(i as int) && self.spec_header_offset(i as int)
                + self.spec_header_length(i as int) <= 4096,
            r matches Ok(b) ==> b@ == self.spec_arena().subrange(
                self.spec_header_offset(i as int) as int,
                self.spec_header_offset(i as int) + self.spec_header_length(i as int),
            ),
            r is Err ==> r == Result::<Vec<u8>, FmError>::Err(FmError::OutOfRange),
    {
        let h = match self.capability_header(i) {
            Ok(h) => h,
            Err(e) => {
                return Err(e);
            },
        };
        if h.offset as u64 + h.length as u64 > 4096 {
            return Err(FmError::OutOfRange);
        }
        let off: usize = h.offset as usize;
        let len: usize = h.length as usize;
        let mut out: Vec<u8> = Vec::new();
        let mut k: usize = 0;
        while k < len
            invariant
                self.wf(),
                off + len <= 4096,
                k <= len,
                out@.len() == k,
                forall|m: int| 0 <= m < k ==> out@[m] == self.spec_arena()[off + m],
            decreases len - k,
        {
            out.push(self.arena[off + k]);
            k = k + 1;
        }
        proof {
            assert(out@ =~= self.spec_arena().subrange(off as int, off + len));
        }
        Ok(out)
    }

    /// Finds the first capability header whose id is `cap_id`, scanning only
    /// the reported count.
    pub fn find_capability(&self, cap_id: u16) -> (r: Option<u16>)
        requires
            self.wf(),
        ensures
            r matches Some(i) ==> {
                &&& self.spec_header_ok(i as int)
                &&& self.spec_header_id(i as int) == cap_id
                &&& forall|j: int| 0 <= j < i ==> self.spec_header_id(j) != cap_id
            },
            r is None ==> forall|j: int|
                #![trigger self.spec_header_id(j)]
                0 <= j < self.spec_capability_count() && Self::spec_header_in_arena(j)
                    ==> self.spec_header_id(j) != cap_id,
    {
        let count = self.capability_count();
        let mut i: u16 = 0;
        while i < count && (16 + 16 * (i as usize) + 16 <= 4096)
            invariant
                self.wf(),
                count == self.spec_capability_count(),
                i <= count,
                forall|j: int| 0 <= j < i ==> self.spec_header_id(j) != cap_id,
            decreases count - i,
        {
            let base: usize = 16 + 16 * (i as usize);
            if read_le_u16(self.arena.as_slice(), base) == cap_id {
                return Some(i);
            }
            i = i + 1;
        }
        None
    }
}

} // verus!
