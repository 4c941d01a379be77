//! The semantic representation of a SOME/IP message header.
//!
//! [`Repr::parse`] validates a [`Packet`] and decodes its fields into typed
//! values, borrowing the payload from the packet's buffer without copying.
//! [`Repr::emit`] writes a representation back into a packet whose buffer
//! the caller has sized to hold it.

use vstd::prelude::*;
use vstd::slice::slice_subrange;
use vstd::string::StringExecFns;
use crate::error::Error;
use crate::field;
use crate::packet::{Packet, spec_declared_length, spec_payload_len};
use crate::text::{push_dec_u64, spec_dec};
use crate::types::{MessageId, MessageType, RequestId, ReturnCode, spec_message_id,
    spec_message_id_word, spec_message_id_display, spec_message_type, spec_message_type_byte,
    spec_message_type_display, spec_message_type_valid, spec_request_id, spec_request_id_word,
    spec_request_id_display, spec_return_code, spec_return_code_byte, spec_return_code_display,
    spec_return_code_valid, spec_return_code_wf, lemma_message_id_unpack_pack,
    lemma_message_type_encode_decode, lemma_request_id_unpack_pack,
    lemma_return_code_encode_decode};
use crate::wire;

verus! {

/// A high-level representation of a SOME/IP message.
///
/// The payload is a borrowed byte view: a `Repr` produced by [`Repr::parse`]
/// is valid as long as the packet it was parsed from.
#[derive(Debug, PartialEq, Eq, Clone, Copy)]
pub struct Repr<'a> {
    /// Message ID (32 bits).
    pub message_id: MessageId,
    /// Declared length field (32 bits): 8 fixed header bytes plus the
    /// payload length.
    pub length: u32,
    /// Request ID (32 bits).
    pub request_id: RequestId,
    /// Protocol version (8 bits).
    pub protocol_version: u8,
    /// Interface version (8 bits).
    pub interface_version: u8,
    /// Message type.
    pub message_type: MessageType,
    /// Return code.
    pub return_code: ReturnCode,
    /// Payload data (variable length), borrowed from the source buffer.
    pub data: &'a [u8],
}

/// The error that parsing `s` reports, or `None` when `s` parses: a buffer
/// too short for the fixed header is reported first, then an unknown message
/// type byte, then an unknown return code byte, and a buffer too short for
/// the declared payload last.
pub open spec fn spec_parse_error(s: Seq<u8>) -> Option<Error> {
    if s.len() < field::HEADER_LENGTH {
        Some(Error::BufferTooShort)
    } else if !spec_message_type_valid(s[field::MESSAGE_TYPE as int]) {
        Some(Error::InvalidMessageType(s[field::MESSAGE_TYPE as int]))
    } else if !spec_return_code_valid(s[field::RETURN_CODE as int]) {
        Some(Error::InvalidReturnCode(s[field::RETURN_CODE as int]))
    } else if s.len() < field::HEADER_LENGTH + spec_payload_len(s) {
        Some(Error::Truncated)
    } else {
        None
    }
}

/// The representation that the buffer `s` decodes to, field by field.
pub open spec fn spec_repr_of(r: Repr, s: Seq<u8>) -> bool {
    &&& r.message_id == spec_message_id(wire::spec_word_at(s, field::MESSAGE_ID as int))
    &&& r.length == spec_declared_length(s)
    &&& r.request_id == spec_request_id(wire::spec_word_at(s, field::REQUEST_ID as int))
    &&& r.protocol_version == s[field::PROTOCOL_VERSION as int]
    &&& r.interface_version == s[field::INTERFACE_VERSION as int]
    &&& r.message_type == spec_message_type(s[field::MESSAGE_TYPE as int])
    &&& r.return_code == spec_return_code(s[field::RETURN_CODE as int])
    &&& r.data@ == s.subrange(
        field::HEADER_LENGTH as int,
        field::HEADER_LENGTH + spec_payload_len(s),
    )
}

/// The 16 header bytes that a representation encodes to, in wire order.
pub open spec fn spec_header_bytes(r: Repr) -> Seq<u8> {
    wire::spec_be_bytes(spec_message_id_word(r.message_id)) + wire::spec_be_bytes(r.length)
        + wire::spec_be_bytes(spec_request_id_word(r.request_id)) + seq![
        r.protocol_version,
        r.interface_version,
        spec_message_type_byte(r.message_type),
        spec_return_code_byte(r.return_code),
    ]
}

/// The buffer that emitting `r` into `dst` produces: the encoded header,
/// the payload, and whatever of `dst` lies beyond them, unchanged.
pub open spec fn spec_emit(r: Repr, dst: Seq<u8>) -> Seq<u8>
    recommends
        dst.len() >= field::HEADER_LENGTH + r.data@.len(),
{
    spec_header_bytes(r) + r.data@ + dst.skip(field::HEADER_LENGTH + r.data@.len() as int)
}

impl<'a> Repr<'a> {
    /// A representation is well formed when its length field counts the 8
    /// fixed header bytes after it plus the payload, and its return code
    /// carries a byte inside the range its variant stands for.
    pub open spec fn wf(self) -> bool {
        &&& self.length == 8 + self.data@.len()
        &&& spec_return_code_wf(self.return_code)
    }

    /// Builds a representation, computing the declared length field from the
    /// payload: 8 fixed header bytes plus the payload length.
    pub fn new(
        message_id: MessageId,
        request_id: RequestId,
        protocol_version: u8,
        interface_version: u8,
        message_type: MessageType,
        return_code: ReturnCode,
        data: &'a [u8],
    ) -> (r: Repr<'a>)
        requires
            data@.len() <= u32::MAX - 8,
        ensures
            r == (Repr {
                message_id,
                length: (8 + data@.len()) as u32,
                request_id,
                protocol_version,
                interface_version,
                message_type,
                return_code,
                data,
            }),
    {
        let length = 8 + data.len() as u32;
        Repr {
            message_id,
            length,
            request_id,
            protocol_version,
            interface_version,
            message_type,
            return_code,
            data,
        }
    }

    /// Parses a packet's buffer into a representation.
    ///
    /// Validation order: the fixed header must be present, the message type
    /// and return code bytes must decode, and the buffer must hold the whole
    /// declared payload; the first violated rule names the error. A declared
    /// length below 8 is clamped to an empty payload rather than rejected.
    pub fn parse(packet: &'a Packet) -> (r: Result<Repr<'a>, Error>)
        ensures
            match r {
                Ok(repr) => spec_parse_error(packet@) is None && spec_repr_of(repr, packet@),
                Err(e) => spec_parse_error(packet@) == Some(e),
            },
    {
        let buffer = packet.as_slice();
        if buffer.len() < field::HEADER_LENGTH {
            return Err(Error::BufferTooShort);
        }
        let message_id = MessageId::from_u32(wire::read_u32_at(buffer, field::MESSAGE_ID));
        let length = wire::read_u32_at(buffer, field::LENGTH);
        let request_id = RequestId::from_u32(wire::read_u32_at(buffer, field::REQUEST_ID));
        let protocol_version = buffer[field::PROTOCOL_VERSION];
        let interface_version = buffer[field::INTERFACE_VERSION];
        let message_type_byte = buffer[field::MESSAGE_TYPE];
        let message_type = match MessageType::from_u8(message_type_byte) {
            Some(t) => t,
            None => {
                return Err(Error::InvalidMessageType(message_type_byte));
            },
        };
        let return_code_byte = buffer[field::RETURN_CODE];
        let return_code = match ReturnCode::from_u8(return_code_byte) {
            Some(c) => c,
            None => {
                return Err(Error::InvalidReturnCode(return_code_byte));
            },
        };
        let payload_length = if length >= 8 {
            (length - 8) as usize
        } else {
            0
        };
        if buffer.len() - field::HEADER_LENGTH < payload_length {
            return Err(Error::Truncated);
        }
        let data = slice_subrange(buffer, field::HEADER_LENGTH, field::HEADER_LENGTH
            + payload_length);
        Ok(
            Repr {
                message_id,
                length,
                request_id,
                protocol_version,
                interface_version,
                message_type,
                return_code,
                data,
            },
        )
    }

    /// Emits the representation into the packet: the header fields in wire
    /// order, then the payload bytes right after them. The caller pre-sizes
    /// the packet's buffer to at least the fixed header plus the payload;
    /// bytes beyond the emitted message are left unchanged.
    pub fn emit(&self, packet: &mut Packet)
        requires
            self.wf(),
            old(packet)@.len() >= field::HEADER_LENGTH + self.data@.len(),
        ensures
            final(packet)@ == spec_emit(*self, old(packet)@),
    {
        packet.set_message_id(self.message_id);
        packet.set_payload_length(self.length);
        packet.set_request_id(self.request_id);
        packet.set_protocol_version(self.protocol_version);
        packet.set_interface_version(self.interface_version);
        packet.set_message_type(self.message_type.as_u8());
        packet.set_return_code(self.return_code.as_u8());
        let ghost header_done = packet@;
        proof {
            let hdr = spec_header_bytes(*self);
            assert(header_done.len() == old(packet)@.len());
            assert(forall|j: int|
                0 <= j < 4 ==> header_done[j] == wire::spec_be_bytes(spec_message_id_word(
                    self.message_id,
                ))[j]);
            assert(forall|j: int| 4 <= j < 8 ==> header_done[j] == wire::spec_be_bytes(
                self.length,
            )[j - 4]);
            assert(forall|j: int|
                8 <= j < 12 ==> header_done[j] == wire::spec_be_bytes(spec_request_id_word(
                    self.request_id,
                ))[j - 8]);
            assert(forall|j: int| 0 <= j < 16 ==> header_done[j] == hdr[j]);
            assert(forall|j: int|
                16 <= j < header_done.len() ==> header_done[j] == old(packet)@[j]);
        }
        let n = self.data.len();
        for i in 0..n
            invariant
                n == self.data@.len(),
                packet@.len() == header_done.len(),
                header_done.len() == old(packet)@.len(),
                header_done.len() >= field::HEADER_LENGTH + n,
                forall|j: int|
                    0 <= j < field::HEADER_LENGTH ==> header_done[j] == spec_header_bytes(
                        *self,
                    )[j],
                forall|j: int|
                    field::HEADER_LENGTH <= j < header_done.len() ==> header_done[j] == old(
                        packet,
                    )@[j],
                forall|j: int|
                    0 <= j < header_done.len() && !(field::HEADER_LENGTH <= j
                        < field::HEADER_LENGTH + i) ==> packet@[j] == header_done[j],
                forall|j: int|
                    0 <= j < i ==> packet@[field::HEADER_LENGTH + j] == self.data@[j],
        {
            packet.set_payload_byte(i, self.data[i]);
        }
        proof {
            let s = spec_emit(*self, old(packet)@);
            let hdr = spec_header_bytes(*self);
            let m = self.data@.len() as int;
            assert(s.len() == packet@.len());
            assert forall|j: int| 0 <= j < packet@.len() implies packet@[j] == s[j] by {
                if j < field::HEADER_LENGTH {
                    assert(s[j] == hdr[j]);
                    assert(packet@[j] == header_done[j]);
                } else if j < field::HEADER_LENGTH + m {
                    assert(s[j] == self.data@[j - field::HEADER_LENGTH]);
                    assert(packet@[field::HEADER_LENGTH + (j - field::HEADER_LENGTH)]
                        == self.data@[j - field::HEADER_LENGTH]);
                } else {
                    assert(s[j] == old(packet)@.skip(field::HEADER_LENGTH + m)[j
                        - field::HEADER_LENGTH - m]);
                    assert(packet@[j] == header_done[j]);
                }
            }
            assert(packet@ =~= s);
        }
    }
}

/// Emitting a well-formed representation into a buffer that can hold it and
/// parsing the result yields the representation back: parsing succeeds and
/// every decoded field, the payload included, equals the one emitted.
pub proof fn lemma_emit_parse_round_trip(r: Repr, dst: Seq<u8>)
    requires
        r.wf(),
        dst.len() >= field::HEADER_LENGTH + r.data@.len(),
    ensures
        spec_parse_error(spec_emit(r, dst)) is None,
        spec_message_id(wire::spec_word_at(spec_emit(r, dst), field::MESSAGE_ID as int))
            == r.message_id,
        spec_declared_length(spec_emit(r, dst)) == r.length,
        spec_request_id(wire::spec_word_at(spec_emit(r, dst), field::REQUEST_ID as int))
            == r.request_id,
        spec_emit(r, dst)[field::PROTOCOL_VERSION as int] == r.protocol_version,
        spec_emit(r, dst)[field::INTERFACE_VERSION as int] == r.interface_version,
        spec_message_type(spec_emit(r, dst)[field::MESSAGE_TYPE as int]) == r.message_type,
        spec_return_code(spec_emit(r, dst)[field::RETURN_CODE as int]) == r.return_code,
        spec_emit(r, dst).subrange(
            field::HEADER_LENGTH as int,
            field::HEADER_LENGTH + spec_payload_len(spec_emit(r, dst)),
        ) == r.data@,
{
    let s = spec_emit(r, dst);
    let hdr = spec_header_bytes(r);
    assert(hdr.len() == 16);
    assert(s.len() == dst.len());
    assert(forall|i: int| 0 <= i < 16 ==> s[i] == hdr[i]);
    let mid = spec_message_id_word(r.message_id);
    let req = spec_request_id_word(r.request_id);
    wire::lemma_word_at_be_bytes(s, field::MESSAGE_ID as int, mid);
    wire::lemma_word_at_be_bytes(s, field::LENGTH as int, r.length);
    wire::lemma_word_at_be_bytes(s, field::REQUEST_ID as int, req);
    lemma_message_id_unpack_pack(r.message_id);
    lemma_request_id_unpack_pack(r.request_id);
    lemma_message_type_encode_decode(r.message_type);
    lemma_return_code_encode_decode(r.return_code);
    assert(spec_payload_len(s) == r.data@.len());
    assert(s.subrange(field::HEADER_LENGTH as int, field::HEADER_LENGTH + spec_payload_len(s))
        =~= r.data@);
}

/// The diagnostic rendering of a representation's fields in one stable line.
pub open spec fn spec_repr_display(r: Repr) -> Seq<char> {
    "SOME/IP Payload: message_id="@ + spec_message_id_display(r.message_id) + ", length="@
        + spec_dec(r.length as int) + ", request_id="@ + spec_request_id_display(r.request_id)
        + ", protocol_version="@ + spec_dec(r.protocol_version as int) + ", interface_version="@
        + spec_dec(r.interface_version as int) + ", message_type="@ + spec_message_type_display(
        r.message_type,
    ) + ", return_code="@ + spec_return_code_display(r.return_code) + ", data_len="@ + spec_dec(
        r.data@.len() as int,
    )
}

impl<'a> Repr<'a> {
    /// Renders all fields in a stable human-readable line; this is a
    /// diagnostic aid, not part of the wire contract.
    pub fn display_string(&self) -> (r: String)
        ensures
            r@ == spec_repr_display(*self),
    {
        let mut s = String::from_str("SOME/IP Payload: message_id=");
        s.append(self.message_id.display_string().as_str());
        s.append(", length=");
        push_dec_u64(&mut s, self.length as u64);
        s.append(", request_id=");
        s.append(self.request_id.display_string().as_str());
        s.append(", protocol_version=");
        push_dec_u64(&mut s, self.protocol_version as u64);
        s.append(", interface_version=");
        push_dec_u64(&mut s, self.interface_version as u64);
        s.append(", message_type=");
        s.append(self.message_type.display_string().as_str());
        s.append(", return_code=");
        s.append(self.return_code.display_string().as_str());
        s.append(", data_len=");
        push_dec_u64(&mut s, self.data.len() as u64);
        proof {
            assert(s@ =~= spec_repr_display(*self));
        }
        s
    }
}

} // verus!
