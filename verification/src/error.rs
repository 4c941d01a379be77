//! Error types for SOME/IP packet parsing and serialization.

use vstd::prelude::*;
use vstd::string::StringExecFns;
use crate::text::{push_hex_u8, spec_hex_u8};

verus! {

/// Errors that can occur during SOME/IP packet parsing or serialization.
///
/// Every failure is a typed value returned to the caller; parsing never
/// panics.
#[derive(Debug, PartialEq, Eq, Structural, Clone, Copy)]
pub enum Error {
    /// The packet buffer is too short to contain a valid SOME/IP header.
    ///
    /// SOME/IP headers are 16 bytes minimum.
    BufferTooShort,
    /// The packet buffer is truncated and doesn't contain the full payload.
    ///
    /// The length field indicates more payload bytes than are available in
    /// the buffer.
    Truncated,
    /// The message type byte is not a valid SOME/IP message type.
    ///
    /// The offending byte is preserved for diagnostics.
    InvalidMessageType(u8),
    /// The return code byte is not a valid SOME/IP return code.
    ///
    /// The offending byte is preserved for diagnostics.
    InvalidReturnCode(u8),
}

/// The diagnostic rendering of an `Error`: a sentence naming the failure,
/// with the offending byte in hex where one was kept.
pub open spec fn spec_error_display(e: Error) -> Seq<char> {
    match e {
        Error::BufferTooShort => "buffer too short for SOME/IP header (minimum 16 bytes)"@,
        Error::Truncated => "packet truncated: buffer shorter than length field indicates"@,
        Error::InvalidMessageType(b) => "invalid message type: 0x"@ + spec_hex_u8(b),
        Error::InvalidReturnCode(b) => "invalid return code: 0x"@ + spec_hex_u8(b),
    }
}

impl Error {
    /// Renders the error for diagnostics.
    pub fn display_string(&self) -> (r: String)
        ensures
            r@ == spec_error_display(*self),
    {
        match self {
            Error::BufferTooShort => String::from_str(
                "buffer too short for SOME/IP header (minimum 16 bytes)",
            ),
            Error::Truncated => String::from_str(
                "packet truncated: buffer shorter than length field indicates",
            ),
            Error::InvalidMessageType(b) => {
                let mut s = String::from_str("invalid message type: 0x");
                push_hex_u8(&mut s, *b);
                s
            },
            Error::InvalidReturnCode(b) => {
                let mut s = String::from_str("invalid return code: 0x");
                push_hex_u8(&mut s, *b);
                s
            },
        }
    }
}

} // verus!
