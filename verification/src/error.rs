//! Error taxonomy of the protocol core.
//!
//! Decode and validation failures are always caused by unexpected device
//! data; invalid-input failures are caused by the caller and are raised
//! before any wire traffic would be attempted.  Transport and timeout
//! failures belong to the asynchronous shell around this library and are
//! not represented here.

use vstd::prelude::*;

verus! {

/// Why a decode or a command build was refused.
#[derive(Clone, Copy, Debug, PartialEq, Eq, Structural)]
pub enum Z21Error {
    /// Fewer bytes than the format's minimum (a frame under 4 bytes, a
    /// sub-message under 2 bytes, a serial reply under 4 bytes).
    TooShort,
    /// The trailing XOR byte of a sub-message disagrees with the checksum
    /// recomputed over its header and data bytes.
    ChecksumMismatch,
    /// A fixed-size payload had some other length.
    WrongLength,
    /// The throttle-stepping bits of a locomotive state message hold a
    /// reserved coding.
    InvalidStepping,
    /// A caller-supplied function index or action is out of range.
    InvalidInput,
}

} // verus!
