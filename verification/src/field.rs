//! Byte ranges of the fields in the fixed SOME/IP header.
//!
//! The header is 16 bytes: a 32-bit message ID, a 32-bit length, a 32-bit
//! request ID, and single bytes for protocol version, interface version,
//! message type and return code. The payload follows immediately after.

use vstd::prelude::*;

verus! {

/// Offset of the 32-bit message ID field (bytes 0-3).
pub const MESSAGE_ID: usize = 0;

/// Offset of the 32-bit length field (bytes 4-7).
pub const LENGTH: usize = 4;

/// Offset of the 32-bit request ID field (bytes 8-11).
pub const REQUEST_ID: usize = 8;

/// Offset of the protocol version byte (byte 12).
pub const PROTOCOL_VERSION: usize = 12;

/// Offset of the interface version byte (byte 13).
pub const INTERFACE_VERSION: usize = 13;

/// Offset of the message type byte (byte 14).
pub const MESSAGE_TYPE: usize = 14;

/// Offset of the return code byte (byte 15).
pub const RETURN_CODE: usize = 15;

/// Length of the fixed SOME/IP header (16 bytes, excluding payload).
pub const HEADER_LENGTH: usize = 16;

/// The byte range occupied by a payload of `length` bytes: it starts right
/// after the fixed header.
pub fn payload(length: usize) -> (r: core::ops::Range<usize>)
    requires
        length <= usize::MAX - HEADER_LENGTH,
    ensures
        r.start == HEADER_LENGTH,
        r.end == HEADER_LENGTH + length,
{
    HEADER_LENGTH..HEADER_LENGTH + length
}

} // verus!
