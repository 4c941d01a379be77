//! SOME/IP value types: composite identifiers and wire enumerations.

use vstd::prelude::*;
use vstd::arithmetic::div_mod::lemma_fundamental_div_mod;
use vstd::string::StringExecFns;
use crate::text::{push_hex_u8, push_hex_u16, spec_hex_u8, spec_hex_u16};

verus! {

/// Struct representation of a Message ID: a 32-bit word whose high half is
/// the service and whose low half is the method.
#[derive(Debug, PartialEq, Eq, Structural, Clone, Copy)]
pub struct MessageId {
    /// Service ID (upper 16 bits of the Message ID word).
    pub service_id: u16,
    /// Method ID or Event ID (lower 16 bits of the Message ID word).
    pub method_id: u16,
}

/// The `MessageId` whose packed 32-bit word is `value`.
pub open spec fn spec_message_id(value: u32) -> MessageId {
    MessageId { service_id: (value / 0x10000) as u16, method_id: (value % 0x10000) as u16 }
}

/// The packed 32-bit word of a `MessageId`: service in the high half,
/// method in the low half.
pub open spec fn spec_message_id_word(id: MessageId) -> u32 {
    (id.service_id * 0x10000 + id.method_id) as u32
}

impl MessageId {
    /// Unpacks a `MessageId` from its 32-bit word.
    pub fn from_u32(value: u32) -> (r: MessageId)
        ensures
            r == spec_message_id(value),
    {
        MessageId { service_id: (value / 0x10000) as u16, method_id: (value % 0x10000) as u16 }
    }

    /// Packs the `MessageId` into its 32-bit word.
    pub fn to_u32(&self) -> (r: u32)
        ensures
            r == spec_message_id_word(*self),
    {
        (self.service_id as u32) * 0x10000 + (self.method_id as u32)
    }
}

/// Packing is the inverse of unpacking: for every 32-bit word, unpacking it
/// into a `MessageId` and packing again yields the original word.
pub proof fn lemma_message_id_pack_unpack(value: u32)
    ensures
        spec_message_id_word(spec_message_id(value)) == value,
{
    lemma_fundamental_div_mod(value as int, 0x10000);
}

/// Unpacking is the inverse of packing: every `MessageId` survives a round
/// trip through its 32-bit word.
pub proof fn lemma_message_id_unpack_pack(id: MessageId)
    ensures
        spec_message_id(spec_message_id_word(id)) == id,
{
    let w = spec_message_id_word(id);
    assert(w == id.service_id * 0x10000 + id.method_id);
    lemma_fundamental_div_mod(w as int, 0x10000);
}

/// Struct representation of a Client ID: a 16-bit word whose high byte is a
/// prefix and whose low byte is the client proper.
#[derive(Debug, PartialEq, Eq, Structural, Clone, Copy)]
pub struct ClientId {
    /// Client ID prefix (upper 8 bits).
    pub client_id_prefix: u8,
    /// Client ID (lower 8 bits).
    pub client_id: u8,
}

/// The `ClientId` whose packed 16-bit word is `value`.
pub open spec fn spec_client_id(value: u16) -> ClientId {
    ClientId { client_id_prefix: (value / 0x100) as u8, client_id: (value % 0x100) as u8 }
}

/// The packed 16-bit word of a `ClientId`: prefix in the high byte.
pub open spec fn spec_client_id_word(id: ClientId) -> u16 {
    (id.client_id_prefix * 0x100 + id.client_id) as u16
}

impl ClientId {
    /// Unpacks a `ClientId` from its 16-bit word.
    pub fn from_u16(value: u16) -> (r: ClientId)
        ensures
            r == spec_client_id(value),
    {
        ClientId { client_id_prefix: (value / 0x100) as u8, client_id: (value % 0x100) as u8 }
    }

    /// Packs the `ClientId` into its 16-bit word.
    pub fn to_u16(&self) -> (r: u16)
        ensures
            r == spec_client_id_word(*self),
    {
        (self.client_id_prefix as u16) * 0x100 + (self.client_id as u16)
    }
}

/// Packing is the inverse of unpacking for `ClientId` at 16 bits.
pub proof fn lemma_client_id_pack_unpack(value: u16)
    ensures
        spec_client_id_word(spec_client_id(value)) == value,
{
    lemma_fundamental_div_mod(value as int, 0x100);
}

/// Unpacking is the inverse of packing for `ClientId`.
pub proof fn lemma_client_id_unpack_pack(id: ClientId)
    ensures
        spec_client_id(spec_client_id_word(id)) == id,
{
    let w = spec_client_id_word(id);
    assert(w == id.client_id_prefix * 0x100 + id.client_id);
    lemma_fundamental_div_mod(w as int, 0x100);
}

/// Struct representation of a Request ID: a 32-bit word whose high half is
/// the client and whose low half is the session.
#[derive(Debug, PartialEq, Eq, Structural, Clone, Copy)]
pub struct RequestId {
    /// Client ID (upper 16 bits of the Request ID word).
    pub client_id: ClientId,
    /// Session ID (lower 16 bits of the Request ID word).
    pub session_id: u16,
}

/// The `RequestId` whose packed 32-bit word is `value`.
pub open spec fn spec_request_id(value: u32) -> RequestId {
    RequestId {
        client_id: spec_client_id((value / 0x10000) as u16),
        session_id: (value % 0x10000) as u16,
    }
}

/// The packed 32-bit word of a `RequestId`: client in the high half,
/// session in the low half.
pub open spec fn spec_request_id_word(id: RequestId) -> u32 {
    (spec_client_id_word(id.client_id) * 0x10000 + id.session_id) as u32
}

impl RequestId {
    /// Unpacks a `RequestId` from its 32-bit word; the high 16 bits are in
    /// turn unpacked into a `ClientId`.
    pub fn from_u32(value: u32) -> (r: RequestId)
        ensures
            r == spec_request_id(value),
    {
        RequestId {
            client_id: ClientId::from_u16((value / 0x10000) as u16),
            session_id: (value % 0x10000) as u16,
        }
    }

    /// Packs the `RequestId` into its 32-bit word.
    pub fn to_u32(&self) -> (r: u32)
        ensures
            r == spec_request_id_word(*self),
    {
        (self.client_id.to_u16() as u32) * 0x10000 + (self.session_id as u32)
    }
}

/// Packing is the inverse of unpacking for `RequestId` at 32 bits.
pub proof fn lemma_request_id_pack_unpack(value: u32)
    ensures
        spec_request_id_word(spec_request_id(value)) == value,
{
    lemma_client_id_pack_unpack((value / 0x10000) as u16);
    lemma_fundamental_div_mod(value as int, 0x10000);
}

/// Unpacking is the inverse of packing for `RequestId`.
pub proof fn lemma_request_id_unpack_pack(id: RequestId)
    ensures
        spec_request_id(spec_request_id_word(id)) == id,
{
    let c = spec_client_id_word(id.client_id);
    let w = spec_request_id_word(id);
    assert(w == c * 0x10000 + id.session_id);
    lemma_fundamental_div_mod(w as int, 0x10000);
    lemma_client_id_unpack_pack(id.client_id);
}

/// SOME/IP return codes.
///
/// Sixteen named codes cover the wire bytes `0x00`..`0x0F`; the two reserved
/// ranges `0x10`..`0x1F` and `0x20`..`0x5E` are kept as data-carrying
/// variants so that reserved bytes round-trip unchanged. Bytes above `0x5E`
/// are not valid return codes.
#[derive(Debug, PartialEq, Eq, Structural, Clone, Copy)]
#[allow(non_camel_case_types)]
pub enum ReturnCode {
    /// No error occurred.
    E_OK,
    /// An unspecified error occurred.
    E_NOT_OK,
    /// The requested service is unknown.
    E_UNKNOWN_SERVICE,
    /// The requested method is unknown.
    E_UNKNOWN_METHOD,
    /// Service not ready.
    E_NOT_READY,
    /// Service not reachable.
    E_NOT_REACHABLE,
    /// Timeout occurred.
    E_TIMEOUT,
    /// Wrong protocol version.
    E_WRONG_PROTOCOL_VERSION,
    /// Wrong interface version.
    E_WRONG_INTERFACE_VERSION,
    /// Malformed message.
    E_MALFORMED_MESSAGE,
    /// Wrong message type.
    E_WRONG_MESSAGE_TYPE,
    /// E2E repeated.
    E_E2E_REPEATED,
    /// E2E wrong sequence.
    E_E2E_WRONG_SEQUENCE,
    /// E2E error.
    E_E2E,
    /// E2E not available.
    E_E2E_NOT_AVAILABLE,
    /// E2E no new data.
    E_E2E_NO_NEW_DATA,
    /// Reserved for generic SOME/IP errors (range 0x10-0x1F).
    ReservedSomeIP(u8),
    /// Reserved for service/method specific errors (range 0x20-0x5E).
    ReservedServiceMethod(u8),
}

/// Whether `value` is a legal return code byte on the wire.
pub open spec fn spec_return_code_valid(value: u8) -> bool {
    value <= 0x5E
}

/// The `ReturnCode` that the wire byte `value` decodes to.
pub open spec fn spec_return_code(value: u8) -> ReturnCode
    recommends
        spec_return_code_valid(value),
{
    if value == 0x00 {
        ReturnCode::E_OK
    } else if value == 0x01 {
        ReturnCode::E_NOT_OK
    } else if value == 0x02 {
        ReturnCode::E_UNKNOWN_SERVICE
    } else if value == 0x03 {
        ReturnCode::E_UNKNOWN_METHOD
    } else if value == 0x04 {
        ReturnCode::E_NOT_READY
    } else if value == 0x05 {
        ReturnCode::E_NOT_REACHABLE
    } else if value == 0x06 {
        ReturnCode::E_TIMEOUT
    } else if value == 0x07 {
        ReturnCode::E_WRONG_PROTOCOL_VERSION
    } else if value == 0x08 {
        ReturnCode::E_WRONG_INTERFACE_VERSION
    } else if value == 0x09 {
        ReturnCode::E_MALFORMED_MESSAGE
    } else if value == 0x0A {
        ReturnCode::E_WRONG_MESSAGE_TYPE
    } else if value == 0x0B {
        ReturnCode::E_E2E_REPEATED
    } else if value == 0x0C {
        ReturnCode::E_E2E_WRONG_SEQUENCE
    } else if value == 0x0D {
        ReturnCode::E_E2E
    } else if value == 0x0E {
        ReturnCode::E_E2E_NOT_AVAILABLE
    } else if value == 0x0F {
        ReturnCode::E_E2E_NO_NEW_DATA
    } else if value <= 0x1F {
        ReturnCode::ReservedSomeIP(value)
    } else {
        ReturnCode::ReservedServiceMethod(value)
    }
}

/// The wire byte of a `ReturnCode`; reserved variants yield their stored
/// byte.
pub open spec fn spec_return_code_byte(code: ReturnCode) -> u8 {
    match code {
        ReturnCode::E_OK => 0x00,
        ReturnCode::E_NOT_OK => 0x01,
        ReturnCode::E_UNKNOWN_SERVICE => 0x02,
        ReturnCode::E_UNKNOWN_METHOD => 0x03,
        ReturnCode::E_NOT_READY => 0x04,
        ReturnCode::E_NOT_REACHABLE => 0x05,
        ReturnCode::E_TIMEOUT => 0x06,
        ReturnCode::E_WRONG_PROTOCOL_VERSION => 0x07,
        ReturnCode::E_WRONG_INTERFACE_VERSION => 0x08,
        ReturnCode::E_MALFORMED_MESSAGE => 0x09,
        ReturnCode::E_WRONG_MESSAGE_TYPE => 0x0A,
        ReturnCode::E_E2E_REPEATED => 0x0B,
        ReturnCode::E_E2E_WRONG_SEQUENCE => 0x0C,
        ReturnCode::E_E2E => 0x0D,
        ReturnCode::E_E2E_NOT_AVAILABLE => 0x0E,
        ReturnCode::E_E2E_NO_NEW_DATA => 0x0F,
        ReturnCode::ReservedSomeIP(v) => v,
        ReturnCode::ReservedServiceMethod(v) => v,
    }
}

/// A `ReturnCode` is well formed when its reserved variants carry a byte
/// inside the range they stand for. Decoding only ever produces well-formed
/// codes, and only well-formed codes round-trip through their wire byte.
pub open spec fn spec_return_code_wf(code: ReturnCode) -> bool {
    match code {
        ReturnCode::ReservedSomeIP(v) => 0x10 <= v <= 0x1F,
        ReturnCode::ReservedServiceMethod(v) => 0x20 <= v <= 0x5E,
        _ => true,
    }
}

impl ReturnCode {
    /// Decodes a `ReturnCode` from a raw byte.
    ///
    /// Returns `None` exactly when the byte is outside the valid SOME/IP
    /// range (above `0x5E`).
    pub fn from_u8(value: u8) -> (r: Option<Self>)
        ensures
            value <= 0x5E ==> r == Some(spec_return_code(value)),
            value > 0x5E ==> r is None,
    {
        if value > 0x5E {
            return None;
        }
        Some(
            match value {
                0x00 => ReturnCode::E_OK,
                0x01 => ReturnCode::E_NOT_OK,
                0x02 => ReturnCode::E_UNKNOWN_SERVICE,
                0x03 => ReturnCode::E_UNKNOWN_METHOD,
                0x04 => ReturnCode::E_NOT_READY,
                0x05 => ReturnCode::E_NOT_REACHABLE,
                0x06 => ReturnCode::E_TIMEOUT,
                0x07 => ReturnCode::E_WRONG_PROTOCOL_VERSION,
                0x08 => ReturnCode::E_WRONG_INTERFACE_VERSION,
                0x09 => ReturnCode::E_MALFORMED_MESSAGE,
                0x0A => ReturnCode::E_WRONG_MESSAGE_TYPE,
                0x0B => ReturnCode::E_E2E_REPEATED,
                0x0C => ReturnCode::E_E2E_WRONG_SEQUENCE,
                0x0D => ReturnCode::E_E2E,
                0x0E => ReturnCode::E_E2E_NOT_AVAILABLE,
                0x0F => ReturnCode::E_E2E_NO_NEW_DATA,
                0x10..=0x1F => ReturnCode::ReservedSomeIP(value),
                _ => ReturnCode::ReservedServiceMethod(value),
            },
        )
    }

    /// Encodes the `ReturnCode` as its wire byte.
    pub fn as_u8(&self) -> (r: u8)
        ensures
            r == spec_return_code_byte(*self),
    {
        match self {
            ReturnCode::E_OK => 0x00,
            ReturnCode::E_NOT_OK => 0x01,
            ReturnCode::E_UNKNOWN_SERVICE => 0x02,
            ReturnCode::E_UNKNOWN_METHOD => 0x03,
            ReturnCode::E_NOT_READY => 0x04,
            ReturnCode::E_NOT_REACHABLE => 0x05,
            ReturnCode::E_TIMEOUT => 0x06,
            ReturnCode::E_WRONG_PROTOCOL_VERSION => 0x07,
            ReturnCode::E_WRONG_INTERFACE_VERSION => 0x08,
            ReturnCode::E_MALFORMED_MESSAGE => 0x09,
            ReturnCode::E_WRONG_MESSAGE_TYPE => 0x0A,
            ReturnCode::E_E2E_REPEATED => 0x0B,
            ReturnCode::E_E2E_WRONG_SEQUENCE => 0x0C,
            ReturnCode::E_E2E => 0x0D,
            ReturnCode::E_E2E_NOT_AVAILABLE => 0x0E,
            ReturnCode::E_E2E_NO_NEW_DATA => 0x0F,
            ReturnCode::ReservedSomeIP(v) => *v,
            ReturnCode::ReservedServiceMethod(v) => *v,
        }
    }

    /// Whether this is the OK status.
    pub fn is_ok(&self) -> (r: bool)
        ensures
            r <==> *self is E_OK,
    {
        matches!(self, ReturnCode::E_OK)
    }

    /// Whether this is a reserved SOME/IP error (0x10-0x1F).
    pub fn is_reserved_someip(&self) -> (r: bool)
        ensures
            r <==> *self is ReservedSomeIP,
    {
        matches!(self, ReturnCode::ReservedSomeIP(_))
    }

    /// Whether this is a service/method specific error (0x20-0x5E).
    pub fn is_reserved_service_method(&self) -> (r: bool)
        ensures
            r <==> *self is ReservedServiceMethod,
    {
        matches!(self, ReturnCode::ReservedServiceMethod(_))
    }
}

/// Decoding a valid byte yields a well-formed code whose wire byte is the
/// byte decoded.
pub proof fn lemma_return_code_decode_encode(value: u8)
    requires
        spec_return_code_valid(value),
    ensures
        spec_return_code_wf(spec_return_code(value)),
        spec_return_code_byte(spec_return_code(value)) == value,
{
}

/// Every well-formed `ReturnCode` survives a round trip through its wire
/// byte, and that byte is valid.
pub proof fn lemma_return_code_encode_decode(code: ReturnCode)
    requires
        spec_return_code_wf(code),
    ensures
        spec_return_code_valid(spec_return_code_byte(code)),
        spec_return_code(spec_return_code_byte(code)) == code,
{
}

/// Message Type for the SOME/IP protocol: a closed enumeration over exactly
/// ten wire byte values.
#[derive(Debug, PartialEq, Eq, Structural, Clone, Copy)]
pub enum MessageType {
    /// A request expecting a response (even void).
    Request,
    /// A fire-and-forget request.
    RequestNoReturn,
    /// A notification/event callback expecting no response.
    Notification,
    /// The response message.
    Response,
    /// The response containing an error.
    Error,
    /// A TP request expecting a response (even void).
    TPRequest,
    /// A TP fire-and-forget request.
    TPRequestNoReturn,
    /// A TP notification/event callback expecting no response.
    TPNotification,
    /// The TP response message.
    TPResponse,
    /// The TP response containing an error.
    TPError,
}

/// Whether `value` is one of the ten known message type bytes.
pub open spec fn spec_message_type_valid(value: u8) -> bool {
    ||| value == 0x00
    ||| value == 0x01
    ||| value == 0x02
    ||| value == 0x03
    ||| value == 0x04
    ||| value == 0x20
    ||| value == 0x21
    ||| value == 0x22
    ||| value == 0xA0
    ||| value == 0xA1
}

/// The `MessageType` that the wire byte `value` decodes to.
pub open spec fn spec_message_type(value: u8) -> MessageType
    recommends
        spec_message_type_valid(value),
{
    if value == 0x00 {
        MessageType::Request
    } else if value == 0x01 {
        MessageType::RequestNoReturn
    } else if value == 0x02 {
        MessageType::Notification
    } else if value == 0x03 {
        MessageType::Response
    } else if value == 0x04 {
        MessageType::Error
    } else if value == 0x20 {
        MessageType::TPRequest
    } else if value == 0x21 {
        MessageType::TPRequestNoReturn
    } else if value == 0x22 {
        MessageType::TPNotification
    } else if value == 0xA0 {
        MessageType::TPResponse
    } else {
        MessageType::TPError
    }
}

/// The wire byte of a `MessageType`.
pub open spec fn spec_message_type_byte(t: MessageType) -> u8 {
    match t {
        MessageType::Request => 0x00,
        MessageType::RequestNoReturn => 0x01,
        MessageType::Notification => 0x02,
        MessageType::Response => 0x03,
        MessageType::Error => 0x04,
        MessageType::TPRequest => 0x20,
        MessageType::TPRequestNoReturn => 0x21,
        MessageType::TPNotification => 0x22,
        MessageType::TPResponse => 0xA0,
        MessageType::TPError => 0xA1,
    }
}

impl MessageType {
    /// Decodes a `MessageType` from its wire byte.
    ///
    /// Returns `None` exactly when the byte is not one of the ten known
    /// message type values.
    pub fn from_u8(value: u8) -> (r: Option<Self>)
        ensures
            spec_message_type_valid(value) ==> r == Some(spec_message_type(value)),
            !spec_message_type_valid(value) ==> r is None,
    {
        match value {
            0x00 => Some(MessageType::Request),
            0x01 => Some(MessageType::RequestNoReturn),
            0x02 => Some(MessageType::Notification),
            0x03 => Some(MessageType::Response),
            0x04 => Some(MessageType::Error),
            0x20 => Some(MessageType::TPRequest),
            0x21 => Some(MessageType::TPRequestNoReturn),
            0x22 => Some(MessageType::TPNotification),
            0xA0 => Some(MessageType::TPResponse),
            0xA1 => Some(MessageType::TPError),
            _ => None,
        }
    }

    /// Encodes the `MessageType` as its wire byte.
    pub fn as_u8(&self) -> (r: u8)
        ensures
            r == spec_message_type_byte(*self),
    {
        match self {
            MessageType::Request => 0x00,
            MessageType::RequestNoReturn => 0x01,
            MessageType::Notification => 0x02,
            MessageType::Response => 0x03,
            MessageType::Error => 0x04,
            MessageType::TPRequest => 0x20,
            MessageType::TPRequestNoReturn => 0x21,
            MessageType::TPNotification => 0x22,
            MessageType::TPResponse => 0xA0,
            MessageType::TPError => 0xA1,
        }
    }

    /// Whether this is a request type that expects a response.
    pub fn is_request(&self) -> (r: bool)
        ensures
            r <==> (*self is Request || *self is TPRequest),
    {
        matches!(self, MessageType::Request | MessageType::TPRequest)
    }

    /// Whether this is a fire-and-forget request.
    pub fn is_request_no_return(&self) -> (r: bool)
        ensures
            r <==> (*self is RequestNoReturn || *self is TPRequestNoReturn),
    {
        matches!(self, MessageType::RequestNoReturn | MessageType::TPRequestNoReturn)
    }

    /// Whether this is a notification.
    pub fn is_notification(&self) -> (r: bool)
        ensures
            r <==> (*self is Notification || *self is TPNotification),
    {
        matches!(self, MessageType::Notification | MessageType::TPNotification)
    }

    /// Whether this is a response.
    pub fn is_response(&self) -> (r: bool)
        ensures
            r <==> (*self is Response || *self is TPResponse),
    {
        matches!(self, MessageType::Response | MessageType::TPResponse)
    }

    /// Whether this is an error response.
    pub fn is_error(&self) -> (r: bool)
        ensures
            r <==> (*self is Error || *self is TPError),
    {
        matches!(self, MessageType::Error | MessageType::TPError)
    }

    /// Whether this is a TP (segmented transport) message.
    pub fn is_tp(&self) -> (r: bool)
        ensures
            r <==> (*self is TPRequest || *self is TPRequestNoReturn || *self is TPNotification
                || *self is TPResponse || *self is TPError),
    {
        matches!(
            self,
            MessageType::TPRequest
                | MessageType::TPRequestNoReturn
                | MessageType::TPNotification
                | MessageType::TPResponse
                | MessageType::TPError
        )
    }
}

/// Decoding a known message type byte yields a type whose wire byte is the
/// byte decoded.
pub proof fn lemma_message_type_decode_encode(value: u8)
    requires
        spec_message_type_valid(value),
    ensures
        spec_message_type_byte(spec_message_type(value)) == value,
{
}

/// Every `MessageType` survives a round trip through its wire byte, and that
/// byte is one of the ten known values.
pub proof fn lemma_message_type_encode_decode(t: MessageType)
    ensures
        spec_message_type_valid(spec_message_type_byte(t)),
        spec_message_type(spec_message_type_byte(t)) == t,
{
}

/// The diagnostic rendering of a `MessageId`: the service and method halves
/// in upper-case hex, separated by a dot.
pub open spec fn spec_message_id_display(id: MessageId) -> Seq<char> {
    spec_hex_u16(id.service_id) + "."@ + spec_hex_u16(id.method_id)
}

/// The diagnostic rendering of a `ClientId`: the prefix and client bytes in
/// upper-case hex, separated by a dot.
pub open spec fn spec_client_id_display(id: ClientId) -> Seq<char> {
    spec_hex_u8(id.client_id_prefix) + "."@ + spec_hex_u8(id.client_id)
}

/// The diagnostic rendering of a `RequestId`: the client rendering, a dot,
/// and the session in upper-case hex.
pub open spec fn spec_request_id_display(id: RequestId) -> Seq<char> {
    spec_client_id_display(id.client_id) + "."@ + spec_hex_u16(id.session_id)
}

/// The diagnostic rendering of a `ReturnCode`: the name of a named code, or
/// the reserved range with the raw byte in hex.
pub open spec fn spec_return_code_display(code: ReturnCode) -> Seq<char> {
    match code {
        ReturnCode::E_OK => "E_OK"@,
        ReturnCode::E_NOT_OK => "E_NOT_OK"@,
        ReturnCode::E_UNKNOWN_SERVICE => "E_UNKNOWN_SERVICE"@,
        ReturnCode::E_UNKNOWN_METHOD => "E_UNKNOWN_METHOD"@,
        ReturnCode::E_NOT_READY => "E_NOT_READY"@,
        ReturnCode::E_NOT_REACHABLE => "E_NOT_REACHABLE"@,
        ReturnCode::E_TIMEOUT => "E_TIMEOUT"@,
        ReturnCode::E_WRONG_PROTOCOL_VERSION => "E_WRONG_PROTOCOL_VERSION"@,
        ReturnCode::E_WRONG_INTERFACE_VERSION => "E_WRONG_INTERFACE_VERSION"@,
        ReturnCode::E_MALFORMED_MESSAGE => "E_MALFORMED_MESSAGE"@,
        ReturnCode::E_WRONG_MESSAGE_TYPE => "E_WRONG_MESSAGE_TYPE"@,
        ReturnCode::E_E2E_REPEATED => "E_E2E_REPEATED"@,
        ReturnCode::E_E2E_WRONG_SEQUENCE => "E_E2E_WRONG_SEQUENCE"@,
        ReturnCode::E_E2E => "E_E2E"@,
        ReturnCode::E_E2E_NOT_AVAILABLE => "E_E2E_NOT_AVAILABLE"@,
        ReturnCode::E_E2E_NO_NEW_DATA => "E_E2E_NO_NEW_DATA"@,
        ReturnCode::ReservedSomeIP(v) => "Reserved SOME/IP Error (0x"@ + spec_hex_u8(v) + ")"@,
        ReturnCode::ReservedServiceMethod(v) => "Reserved Service/Method Error (0x"@ + spec_hex_u8(
            v,
        ) + ")"@,
    }
}

/// The diagnostic rendering of a `MessageType`: its name in words.
pub open spec fn spec_message_type_display(t: MessageType) -> Seq<char> {
    match t {
        MessageType::Request => "Request"@,
        MessageType::RequestNoReturn => "Request No Return"@,
        MessageType::Notification => "Notification"@,
        MessageType::Response => "Response"@,
        MessageType::Error => "Error"@,
        MessageType::TPRequest => "TP Request"@,
        MessageType::TPRequestNoReturn => "TP Request No Return"@,
        MessageType::TPNotification => "TP Notification"@,
        MessageType::TPResponse => "TP Response"@,
        MessageType::TPError => "TP Error"@,
    }
}

impl MessageId {
    /// Renders the ID for diagnostics, in upper-case hex.
    pub fn display_string(&self) -> (r: String)
        ensures
            r@ == spec_message_id_display(*self),
    {
        let mut s = String::new();
        push_hex_u16(&mut s, self.service_id);
        s.append(".");
        push_hex_u16(&mut s, self.method_id);
        proof {
            assert(s@ =~= spec_message_id_display(*self));
        }
        s
    }
}

impl ClientId {
    /// Renders the ID for diagnostics, in upper-case hex.
    pub fn display_string(&self) -> (r: String)
        ensures
            r@ == spec_client_id_display(*self),
    {
        let mut s = String::new();
        push_hex_u8(&mut s, self.client_id_prefix);
        s.append(".");
        push_hex_u8(&mut s, self.client_id);
        proof {
            assert(s@ =~= spec_client_id_display(*self));
        }
        s
    }
}

impl RequestId {
    /// Renders the ID for diagnostics, in upper-case hex.
    pub fn display_string(&self) -> (r: String)
        ensures
            r@ == spec_request_id_display(*self),
    {
        let mut s = self.client_id.display_string();
        s.append(".");
        push_hex_u16(&mut s, self.session_id);
        proof {
            assert(s@ =~= spec_request_id_display(*self));
        }
        s
    }
}

impl ReturnCode {
    /// Renders the code for diagnostics: its name, or the reserved range
    /// with the raw byte.
    pub fn display_string(&self) -> (r: String)
        ensures
            r@ == spec_return_code_display(*self),
    {
        match self {
            ReturnCode::E_OK => String::from_str("E_OK"),
            ReturnCode::E_NOT_OK => String::from_str("E_NOT_OK"),
            ReturnCode::E_UNKNOWN_SERVICE => String::from_str("E_UNKNOWN_SERVICE"),
            ReturnCode::E_UNKNOWN_METHOD => String::from_str("E_UNKNOWN_METHOD"),
            ReturnCode::E_NOT_READY => String::from_str("E_NOT_READY"),
            ReturnCode::E_NOT_REACHABLE => String::from_str("E_NOT_REACHABLE"),
            ReturnCode::E_TIMEOUT => String::from_str("E_TIMEOUT"),
            ReturnCode::E_WRONG_PROTOCOL_VERSION => String::from_str("E_WRONG_PROTOCOL_VERSION"),
            ReturnCode::E_WRONG_INTERFACE_VERSION => String::from_str("E_WRONG_INTERFACE_VERSION"),
            ReturnCode::E_MALFORMED_MESSAGE => String::from_str("E_MALFORMED_MESSAGE"),
            ReturnCode::E_WRONG_MESSAGE_TYPE => String::from_str("E_WRONG_MESSAGE_TYPE"),
            ReturnCode::E_E2E_REPEATED => String::from_str("E_E2E_REPEATED"),
            ReturnCode::E_E2E_WRONG_SEQUENCE => String::from_str("E_E2E_WRONG_SEQUENCE"),
            ReturnCode::E_E2E => String::from_str("E_E2E"),
            ReturnCode::E_E2E_NOT_AVAILABLE => String::from_str("E_E2E_NOT_AVAILABLE"),
            ReturnCode::E_E2E_NO_NEW_DATA => String::from_str("E_E2E_NO_NEW_DATA"),
            ReturnCode::ReservedSomeIP(v) => {
                let mut s = String::from_str("Reserved SOME/IP Error (0x");
                push_hex_u8(&mut s, *v);
                s.append(")");
                proof {
                    assert(s@ =~= spec_return_code_display(*self));
                }
                s
            },
            ReturnCode::ReservedServiceMethod(v) => {
                let mut s = String::from_str("Reserved Service/Method Error (0x");
                push_hex_u8(&mut s, *v);
                s.append(")");
                proof {
                    assert(s@ =~= spec_return_code_display(*self));
                }
                s
            },
        }
    }
}

impl MessageType {
    /// Renders the message type for diagnostics: its name in words.
    pub fn display_string(&self) -> (r: String)
        ensures
            r@ == spec_message_type_display(*self),
    {
        match self {
            MessageType::Request => String::from_str("Request"),
            MessageType::RequestNoReturn => String::from_str("Request No Return"),
            MessageType::Notification => String::from_str("Notification"),
            MessageType::Response => String::from_str("Response"),
            MessageType::Error => String::from_str("Error"),
            MessageType::TPRequest => String::from_str("TP Request"),
            MessageType::TPRequestNoReturn => String::from_str("TP Request No Return"),
            MessageType::TPNotification => String::from_str("TP Notification"),
            MessageType::TPResponse => String::from_str("TP Response"),
            MessageType::TPError => String::from_str("TP Error"),
        }
    }
}

impl From<ReturnCode> for u8 {
    /// The wire byte of the code; a convenience alias for [`ReturnCode::as_u8`].
    fn from(code: ReturnCode) -> (r: u8)
        ensures
            r == spec_return_code_byte(code),
    {
        code.as_u8()
    }
}

impl vstd::std_specs::convert::FromSpecImpl<ReturnCode> for u8 {
    open spec fn obeys_from_spec() -> bool {
        true
    }

    open spec fn from_spec(code: ReturnCode) -> u8 {
        spec_return_code_byte(code)
    }
}

impl From<MessageType> for u8 {
    /// The wire byte of the message type; a convenience alias for
    /// [`MessageType::as_u8`].
    fn from(t: MessageType) -> (r: u8)
        ensures
            r == spec_message_type_byte(t),
    {
        t.as_u8()
    }
}

impl vstd::std_specs::convert::FromSpecImpl<MessageType> for u8 {
    open spec fn obeys_from_spec() -> bool {
        true
    }

    open spec fn from_spec(t: MessageType) -> u8 {
        spec_message_type_byte(t)
    }
}

} // verus!
