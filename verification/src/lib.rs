//! A codec for the SOME/IP message header.
//!
//! The crate turns a raw byte buffer into a validated, typed header
//! representation and back. The 16-byte fixed header is read and written at
//! fixed offsets in network byte order; the payload is handed out as a
//! borrowed byte slice and never interpreted. A malformed or truncated
//! buffer never causes a panic, only a typed [`error::Error`].
//!
//! - [`packet::Packet`] wraps a buffer and reads or writes single header
//!   fields at their fixed offsets.
//! - [`repr::Repr`] is the semantic header; [`repr::Repr::parse`] validates
//!   a packet and [`repr::Repr::emit`] writes a representation back into one.
//! - [`types`] holds the composite identifiers and the two wire
//!   enumerations, each with a byte-exact encode/decode mapping.
//! - [`field`] names the byte ranges of the fixed header.
//! - [`wire`] reads and writes 32-bit words in network byte order.
//! - [`text`] holds the digit-level building blocks of the diagnostic
//!   renderings.

pub mod error;
pub mod field;
pub mod packet;
pub mod prelude;
pub mod repr;
pub mod text;
pub mod types;
pub mod wire;
