//! Low-level administration of CXL memory devices: bit-field register
//! accessors, PCI configuration-space address resolution, extended-capability
//! chain walking, the typed device register file, and the doorbell-based
//! mailbox command protocol.

pub mod bdf;
pub mod bitfield;
pub mod bytes;
pub mod confighdr;
pub mod error;
pub mod hexnum;
pub mod mailbox;
pub mod regfile;
pub mod resolver;
pub mod walker;
