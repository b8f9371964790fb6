//! Failure taxonomy shared by the discovery layer and the mailbox engine.

use vstd::prelude::*;

verus! {

/// Every failure the library reports.  Discovery failures (resolver, walker,
/// register-file bounds) are unrecoverable for that call; `Busy` and `Timeout`
/// are caller-retryable; `HardwareReturnCode` carries the device's own
/// reported reason and is terminal for that command only.
#[derive(Clone, Copy, Debug, PartialEq, Eq, Structural)]
pub enum FmError {
    /// The backing source (a file, a mapping) could not be read at all.
    ResourceUnavailable,
    /// A scan ended without the thing looked for (no ECAM line, no matching
    /// capability in the chain).
    NotFound,
    /// Malformed text where a number was expected.
    ParseError,
    /// An index or an (offset, length) pair points outside its arena.
    OutOfRange,
    /// The doorbell was already set when a new command was submitted.
    Busy,
    /// The payload is longer than the capability-advertised maximum.
    PayloadTooLarge,
    /// The doorbell did not clear within the caller-supplied budget.
    Timeout,
    /// The engine was asked for a result outside a completed state.
    InvalidState,
    /// The device itself reported a nonzero mailbox return code.
    HardwareReturnCode(u64),
}

/// The fixed lookup table mirroring the CXL mailbox return-code encoding.
/// `0` is success and `1` is the background-operation sentinel; the other
/// listed values are the failure kinds the device can report.
#[derive(Clone, Copy, Debug, PartialEq, Eq, Structural)]
pub enum MailboxReturnKind {
    Success,
    BackgroundStarted,
    InvalidInput,
    Unsupported,
    InternalError,
    Retry,
    Busy,
    MediaDisabled,
    /// A code outside the versioned table, kept verbatim.
    Other(u64),
}

/// Return code the device reports when a command continues as a background
/// operation.
pub const BACKGROUND_OPERATION_SENTINEL: u64 = 1;

/// The versioned return-code table as a spec-level map.
pub open spec fn spec_return_code_kind(code: u64) -> MailboxReturnKind {
    if code == 0 {
        MailboxReturnKind::Success
    } else if code == 1 {
        MailboxReturnKind::BackgroundStarted
    } else if code == 2 {
        MailboxReturnKind::InvalidInput
    } else if code == 3 {
        MailboxReturnKind::Unsupported
    } else if code == 4 {
        MailboxReturnKind::InternalError
    } else if code == 5 {
        MailboxReturnKind::Retry
    } else if code == 6 {
        MailboxReturnKind::Busy
    } else if code == 7 {
        MailboxReturnKind::MediaDisabled
    } else {
        MailboxReturnKind::Other(code)
    }
}

/// Maps a raw device return code to its kind, by the fixed table.
pub fn return_code_kind(code: u64) -> (k: MailboxReturnKind)
    ensures
        k == spec_return_code_kind(code),
{
    if code == 0 {
        MailboxReturnKind::Success
    } else if code == 1 {
        MailboxReturnKind::BackgroundStarted
    } else if code == 2 {
        MailboxReturnKind::InvalidInput
    } else if code == 3 {
        MailboxReturnKind::Unsupported
    } else if code == 4 {
        MailboxReturnKind::InternalError
    } else if code == 5 {
        MailboxReturnKind::Retry
    } else if code == 6 {
        MailboxReturnKind::Busy
    } else if code == 7 {
        MailboxReturnKind::MediaDisabled
    } else {
        MailboxReturnKind::Other(code)
    }
}

/// Turns a raw return code into the command outcome: success, the
/// background sentinel, or a `HardwareReturnCode` failure.
pub fn command_outcome(code: u64) -> (r: Result<(), FmError>)
    ensures
        r is Ok <==> code == 0,
        r is Err ==> r == Result::<(), FmError>::Err(FmError::HardwareReturnCode(code)),
{
    if code == 0 {
        Ok(())
    } else {
        Err(FmError::HardwareReturnCode(code))
    }
}

} // verus!
