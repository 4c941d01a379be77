//! A read/write wrapper around a SOME/IP packet buffer.
//!
//! [`Packet`] wraps a byte buffer without interpreting it: getters read the
//! header fields at their fixed offsets in network byte order, setters write
//! them back, and the payload region is exposed as a slice whose bounds come
//! from the declared length field actually stored in the buffer.

use vstd::prelude::*;
use vstd::slice::slice_subrange;
use vstd::string::StringExecFns;
use crate::error::Error;
use crate::field;
use crate::text::{push_dec_u64, push_hex_u8, spec_dec, spec_hex_u8};
use crate::types::{MessageId, RequestId, spec_message_id, spec_message_id_word,
    spec_message_id_display, spec_request_id, spec_request_id_word, spec_request_id_display};
use crate::wire;

verus! {

/// The declared length field stored at its fixed offset of the buffer.
pub open spec fn spec_declared_length(s: Seq<u8>) -> u32
    recommends
        s.len() >= field::HEADER_LENGTH,
{
    wire::spec_word_at(s, field::LENGTH as int)
}

/// The payload length that the stored length field declares: the field
/// counts the 8 header bytes that follow it, and a field below 8 is clamped
/// to an empty payload rather than rejected.
pub open spec fn spec_payload_len(s: Seq<u8>) -> int
    recommends
        s.len() >= field::HEADER_LENGTH,
{
    let length = spec_declared_length(s);
    if length >= 8 {
        length - 8
    } else {
        0
    }
}

/// A buffer holds its whole declared message: the fixed header and as many
/// payload bytes as the stored length field declares.
pub open spec fn spec_holds_payload(s: Seq<u8>) -> bool {
    s.len() >= field::HEADER_LENGTH + spec_payload_len(s)
}

/// The new buffer equals the old one with `bytes` written at offset `off`.
pub open spec fn spec_bytes_replaced(old_s: Seq<u8>, new_s: Seq<u8>, off: int, bytes: Seq<u8>) -> bool {
    &&& new_s.len() == old_s.len()
    &&& forall|i: int|
        0 <= i < old_s.len() && !(off <= i < off + bytes.len()) ==> new_s[i] == old_s[i]
    &&& forall|i: int| off <= i < off + bytes.len() ==> new_s[i] == bytes[i - off]
    &&& new_s.subrange(off, off + bytes.len()) == bytes
}

/// A read/write wrapper around a SOME/IP packet buffer.
#[derive(Debug, PartialEq, Eq, Clone)]
pub struct Packet {
    buffer: Vec<u8>,
}

impl View for Packet {
    type V = Seq<u8>;

    closed spec fn view(&self) -> Seq<u8> {
        self.buffer@
    }
}

/// Relies on slice range indexing (`&mut s[i..j]`): the result is the
/// subslice `i..j` of `s`, writes through it land at those positions, and a
/// mutable slice cannot change its length.
#[verifier::external_body]
fn slice_range_mut<'a>(s: &'a mut [u8], i: usize, j: usize) -> (r: &'a mut [u8])
    requires
        i <= j,
        j <= old(s)@.len(),
    ensures
        r@ == old(s)@.subrange(i as int, j as int),
        final(r)@.len() == r@.len(),
        final(s)@ == old(s)@.subrange(0, i as int) + final(r)@ + old(s)@.subrange(
            j as int,
            old(s)@.len() as int,
        ),
{
    &mut s[i..j]
}

impl Packet {
    /// Wraps a buffer without any validation; used when the caller already
    /// knows the buffer is large enough.
    pub fn new_unchecked(buffer: Vec<u8>) -> (r: Packet)
        ensures
            r@ == buffer@,
    {
        Packet { buffer }
    }

    /// Wraps a buffer after checking that it can hold the fixed header;
    /// fails with [`Error::BufferTooShort`] otherwise.
    pub fn new_checked(buffer: Vec<u8>) -> (r: Result<Packet, Error>)
        ensures
            buffer@.len() >= field::HEADER_LENGTH ==> (r matches Ok(p) && p@ == buffer@),
            buffer@.len() < field::HEADER_LENGTH ==> r == Err::<Packet, Error>(
                Error::BufferTooShort,
            ),
    {
        let packet = Self::new_unchecked(buffer);
        match packet.check_len() {
            Ok(_) => Ok(packet),
            Err(e) => Err(e),
        }
    }

    /// Checks that the buffer can hold the 16-byte fixed header.
    pub fn check_len(&self) -> (r: Result<(), Error>)
        ensures
            self@.len() >= field::HEADER_LENGTH ==> r is Ok,
            self@.len() < field::HEADER_LENGTH ==> r == Err::<(), Error>(Error::BufferTooShort),
    {
        if self.buffer.len() < field::HEADER_LENGTH {
            Err(Error::BufferTooShort)
        } else {
            Ok(())
        }
    }

    /// Returns the inner buffer.
    pub fn into_inner(self) -> (r: Vec<u8>)
        ensures
            r@ == self@,
    {
        self.buffer
    }

    /// Returns the buffer as a slice.
    pub fn as_slice(&self) -> (r: &[u8])
        ensures
            r@ == self@,
    {
        self.buffer.as_slice()
    }

    /// Reads the Message ID field.
    pub fn message_id(&self) -> (r: MessageId)
        requires
            self@.len() >= field::HEADER_LENGTH,
        ensures
            r == spec_message_id(wire::spec_word_at(self@, field::MESSAGE_ID as int)),
    {
        let raw = wire::read_u32_at(self.buffer.as_slice(), field::MESSAGE_ID);
        MessageId::from_u32(raw)
    }

    /// Reads the declared length field: the number of bytes that follow it
    /// on the wire, 8 fixed header bytes plus the payload.
    pub fn payload_length(&self) -> (r: usize)
        requires
            self@.len() >= field::HEADER_LENGTH,
        ensures
            r == spec_declared_length(self@),
    {
        wire::read_u32_at(self.buffer.as_slice(), field::LENGTH) as usize
    }

    /// Reads the Request ID field.
    pub fn request_id(&self) -> (r: RequestId)
        requires
            self@.len() >= field::HEADER_LENGTH,
        ensures
            r == spec_request_id(wire::spec_word_at(self@, field::REQUEST_ID as int)),
    {
        RequestId::from_u32(wire::read_u32_at(self.buffer.as_slice(), field::REQUEST_ID))
    }

    /// Reads the protocol version byte.
    pub fn protocol_version(&self) -> (r: u8)
        requires
            self@.len() >= field::HEADER_LENGTH,
        ensures
            r == self@[field::PROTOCOL_VERSION as int],
    {
        self.buffer[field::PROTOCOL_VERSION]
    }

    /// Reads the interface version byte.
    pub fn interface_version(&self) -> (r: u8)
        requires
            self@.len() >= field::HEADER_LENGTH,
        ensures
            r == self@[field::INTERFACE_VERSION as int],
    {
        self.buffer[field::INTERFACE_VERSION]
    }

    /// Reads the raw message type byte.
    pub fn message_type(&self) -> (r: u8)
        requires
            self@.len() >= field::HEADER_LENGTH,
        ensures
            r == self@[field::MESSAGE_TYPE as int],
    {
        self.buffer[field::MESSAGE_TYPE]
    }

    /// Reads the raw return code byte.
    pub fn return_code(&self) -> (r: u8)
        requires
            self@.len() >= field::HEADER_LENGTH,
        ensures
            r == self@[field::RETURN_CODE as int],
    {
        self.buffer[field::RETURN_CODE]
    }

    /// The byte range of the payload, as declared by the length field stored
    /// in the buffer.
    pub fn payload_data_range(&self) -> (r: core::ops::Range<usize>)
        requires
            self@.len() >= field::HEADER_LENGTH,
            field::HEADER_LENGTH + spec_payload_len(self@) <= usize::MAX,
        ensures
            r.start == field::HEADER_LENGTH,
            r.end == field::HEADER_LENGTH + spec_payload_len(self@),
    {
        field::payload(self.payload_data_length())
    }

    /// The length of the payload, as declared by the length field stored in
    /// the buffer.
    pub fn payload_data_length(&self) -> (r: usize)
        requires
            self@.len() >= field::HEADER_LENGTH,
        ensures
            r == spec_payload_len(self@),
    {
        let length = wire::read_u32_at(self.buffer.as_slice(), field::LENGTH);
        if length >= 8 {
            (length - 8) as usize
        } else {
            0
        }
    }

    /// Writes the Message ID field.
    pub fn set_message_id(&mut self, message_id: MessageId)
        requires
            old(self)@.len() >= field::HEADER_LENGTH,
        ensures
            spec_bytes_replaced(
                old(self)@,
                final(self)@,
                field::MESSAGE_ID as int,
                wire::spec_be_bytes(spec_message_id_word(message_id)),
            ),
    {
        let raw = message_id.to_u32();
        wire::write_u32_at(&mut self.buffer, field::MESSAGE_ID, raw);
        proof {
            assert(self@.subrange(field::MESSAGE_ID as int, field::MESSAGE_ID + 4)
                =~= wire::spec_be_bytes(spec_message_id_word(message_id)));
        }
    }

    /// Writes the declared length field.
    pub fn set_payload_length(&mut self, length: u32)
        requires
            old(self)@.len() >= field::HEADER_LENGTH,
        ensures
            spec_bytes_replaced(
                old(self)@,
                final(self)@,
                field::LENGTH as int,
                wire::spec_be_bytes(length),
            ),
    {
        wire::write_u32_at(&mut self.buffer, field::LENGTH, length);
        proof {
            assert(self@.subrange(field::LENGTH as int, field::LENGTH + 4) =~= wire::spec_be_bytes(
                length,
            ));
        }
    }

    /// Writes the Request ID field.
    pub fn set_request_id(&mut self, request_id: RequestId)
        requires
            old(self)@.len() >= field::HEADER_LENGTH,
        ensures
            spec_bytes_replaced(
                old(self)@,
                final(self)@,
                field::REQUEST_ID as int,
                wire::spec_be_bytes(spec_request_id_word(request_id)),
            ),
    {
        let raw = request_id.to_u32();
        wire::write_u32_at(&mut self.buffer, field::REQUEST_ID, raw);
        proof {
            assert(self@.subrange(field::REQUEST_ID as int, field::REQUEST_ID + 4)
                =~= wire::spec_be_bytes(spec_request_id_word(request_id)));
        }
    }

    /// Writes the protocol version byte.
    pub fn set_protocol_version(&mut self, version: u8)
        requires
            old(self)@.len() >= field::HEADER_LENGTH,
        ensures
            final(self)@ == old(self)@.update(field::PROTOCOL_VERSION as int, version),
    {
        self.buffer[field::PROTOCOL_VERSION] = version;
    }

    /// Writes the interface version byte.
    pub fn set_interface_version(&mut self, version: u8)
        requires
            old(self)@.len() >= field::HEADER_LENGTH,
        ensures
            final(self)@ == old(self)@.update(field::INTERFACE_VERSION as int, version),
    {
        self.buffer[field::INTERFACE_VERSION] = version;
    }

    /// Writes the raw message type byte.
    pub fn set_message_type(&mut self, message_type: u8)
        requires
            old(self)@.len() >= field::HEADER_LENGTH,
        ensures
            final(self)@ == old(self)@.update(field::MESSAGE_TYPE as int, message_type),
    {
        self.buffer[field::MESSAGE_TYPE] = message_type;
    }

    /// Writes the raw return code byte.
    pub fn set_return_code(&mut self, return_code: u8)
        requires
            old(self)@.len() >= field::HEADER_LENGTH,
        ensures
            final(self)@ == old(self)@.update(field::RETURN_CODE as int, return_code),
    {
        self.buffer[field::RETURN_CODE] = return_code;
    }

    /// Writes one byte of the payload region, `index` bytes past the fixed
    /// header.
    pub(crate) fn set_payload_byte(&mut self, index: usize, value: u8)
        requires
            field::HEADER_LENGTH + index < old(self)@.len(),
        ensures
            final(self)@ == old(self)@.update(field::HEADER_LENGTH + index, value),
    {
        // Calling `len` pins the buffer length into `usize` range, so the
        // index below cannot overflow.
        let _len = self.buffer.len();
        self.buffer[field::HEADER_LENGTH + index] = value;
    }

    /// The payload bytes, bounded by the declared length stored in the
    /// buffer.
    pub fn payload_data(&self) -> (r: &[u8])
        requires
            self@.len() >= field::HEADER_LENGTH,
            spec_holds_payload(self@),
        ensures
            r@ == self@.subrange(
                field::HEADER_LENGTH as int,
                field::HEADER_LENGTH + spec_payload_len(self@),
            ),
    {
        // Calling `len` pins the buffer length into `usize` range, so the
        // payload end below cannot overflow.
        let _len = self.buffer.len();
        let end = field::HEADER_LENGTH + self.payload_data_length();
        slice_subrange(self.buffer.as_slice(), field::HEADER_LENGTH, end)
    }

    /// The meaningful prefix of the buffer: the fixed header and the
    /// declared payload, without any trailing bytes beyond them.
    pub fn entire_message(&self) -> (r: &[u8])
        requires
            self@.len() >= field::HEADER_LENGTH,
            spec_holds_payload(self@),
        ensures
            r@ == self@.subrange(0, field::HEADER_LENGTH + spec_payload_len(self@)),
    {
        // Calling `len` pins the buffer length into `usize` range, so the
        // payload end below cannot overflow.
        let _len = self.buffer.len();
        let end = field::HEADER_LENGTH + self.payload_data_length();
        slice_subrange(self.buffer.as_slice(), 0, end)
    }

    /// The payload bytes, mutably, bounded by the declared length stored in
    /// the buffer.
    pub fn payload_data_mut(&mut self) -> (r: &mut [u8])
        requires
            old(self)@.len() >= field::HEADER_LENGTH,
            spec_holds_payload(old(self)@),
        ensures
            r@ == old(self)@.subrange(
                field::HEADER_LENGTH as int,
                field::HEADER_LENGTH + spec_payload_len(old(self)@),
            ),
            final(r)@.len() == r@.len(),
            final(self)@ == old(self)@.subrange(0, field::HEADER_LENGTH as int) + final(r)@ + old(
                self,
            )@.subrange(field::HEADER_LENGTH + spec_payload_len(old(self)@), old(self)@.len() as int),
    {
        // Calling `len` pins the buffer length into `usize` range, so the
        // payload end below cannot overflow.
        let _len = self.buffer.len();
        let end = field::HEADER_LENGTH + self.payload_data_length();
        slice_range_mut(self.buffer.as_mut_slice(), field::HEADER_LENGTH, end)
    }

    /// The meaningful prefix of the buffer, mutably: the fixed header and
    /// the declared payload.
    pub fn entire_message_mut(&mut self) -> (r: &mut [u8])
        requires
            old(self)@.len() >= field::HEADER_LENGTH,
            spec_holds_payload(old(self)@),
        ensures
            r@ == old(self)@.subrange(0, field::HEADER_LENGTH + spec_payload_len(old(self)@)),
            final(r)@.len() == r@.len(),
            final(self)@ == final(r)@ + old(self)@.subrange(
                field::HEADER_LENGTH + spec_payload_len(old(self)@),
                old(self)@.len() as int,
            ),
    {
        // Calling `len` pins the buffer length into `usize` range, so the
        // payload end below cannot overflow.
        let _len = self.buffer.len();
        let end = field::HEADER_LENGTH + self.payload_data_length();
        let r = slice_range_mut(self.buffer.as_mut_slice(), 0, end);
        proof {
            assert(old(self)@.subrange(0, 0) + final(r)@ + old(self)@.subrange(
                end as int,
                old(self)@.len() as int,
            ) =~= final(r)@ + old(self)@.subrange(end as int, old(self)@.len() as int));
        }
        r
    }
}

/// The diagnostic rendering of a packet's header fields in one stable line.
pub open spec fn spec_packet_display(s: Seq<u8>) -> Seq<char>
    recommends
        s.len() >= field::HEADER_LENGTH,
{
    "Some/IP Packet: message_id="@ + spec_message_id_display(
        spec_message_id(wire::spec_word_at(s, field::MESSAGE_ID as int)),
    ) + ", length="@ + spec_dec(spec_declared_length(s) as int) + ", request_id="@
        + spec_request_id_display(spec_request_id(wire::spec_word_at(s, field::REQUEST_ID as int)))
        + ", protocol_version="@ + spec_dec(s[field::PROTOCOL_VERSION as int] as int)
        + ", interface_version="@ + spec_dec(s[field::INTERFACE_VERSION as int] as int)
        + ", message_type=0x"@ + spec_hex_u8(s[field::MESSAGE_TYPE as int]) + ", return_code=0x"@
        + spec_hex_u8(s[field::RETURN_CODE as int])
}

impl Packet {
    /// Renders all header fields in a stable human-readable line; this is a
    /// diagnostic aid, not part of the wire contract.
    pub fn display_string(&self) -> (r: String)
        requires
            self@.len() >= field::HEADER_LENGTH,
        ensures
            r@ == spec_packet_display(self@),
    {
        let mut s = String::from_str("Some/IP Packet: message_id=");
        s.append(self.message_id().display_string().as_str());
        s.append(", length=");
        push_dec_u64(&mut s, self.payload_length() as u64);
        s.append(", request_id=");
        s.append(self.request_id().display_string().as_str());
        s.append(", protocol_version=");
        push_dec_u64(&mut s, self.protocol_version() as u64);
        s.append(", interface_version=");
        push_dec_u64(&mut s, self.interface_version() as u64);
        s.append(", message_type=0x");
        push_hex_u8(&mut s, self.message_type());
        s.append(", return_code=0x");
        push_hex_u8(&mut s, self.return_code());
        proof {
            assert(s@ =~= spec_packet_display(self@));
        }
        s
    }
}

} // verus!
