use someip_wire::error::Error;
use someip_wire::packet::Packet;
use someip_wire::repr::Repr;
use someip_wire::types::{ClientId, MessageId, MessageType, RequestId, ReturnCode};

#[test]
fn test_message_id_display() {
    let id = MessageId {
        service_id: 0x1234,
        method_id: 0x0001,
    };
    assert_eq!(id.display_string(), "1234.0001");
    let id = MessageId {
        service_id: 0x00AB,
        method_id: 0xFFFF,
    };
    assert_eq!(id.display_string(), "00AB.FFFF");
}

#[test]
fn test_client_id_display() {
    let id = ClientId {
        client_id_prefix: 0x01,
        client_id: 0x02,
    };
    assert_eq!(id.display_string(), "01.02");
}

#[test]
fn test_request_id_display() {
    let id = RequestId {
        client_id: ClientId {
            client_id_prefix: 0x01,
            client_id: 0x02,
        },
        session_id: 0x0001,
    };
    assert_eq!(id.display_string(), "01.02.0001");
}

#[test]
fn test_return_code_display() {
    assert_eq!(ReturnCode::E_OK.display_string(), "E_OK");
    assert_eq!(ReturnCode::E_TIMEOUT.display_string(), "E_TIMEOUT");
    assert_eq!(
        ReturnCode::E_E2E_NO_NEW_DATA.display_string(),
        "E_E2E_NO_NEW_DATA"
    );
    assert_eq!(
        ReturnCode::ReservedSomeIP(0x15).display_string(),
        "Reserved SOME/IP Error (0x15)"
    );
    assert_eq!(
        ReturnCode::ReservedServiceMethod(0x42).display_string(),
        "Reserved Service/Method Error (0x42)"
    );
}

#[test]
fn test_message_type_display() {
    assert_eq!(MessageType::Request.display_string(), "Request");
    assert_eq!(
        MessageType::TPRequestNoReturn.display_string(),
        "TP Request No Return"
    );
    assert_eq!(MessageType::TPError.display_string(), "TP Error");
}

#[test]
fn test_error_display() {
    assert_eq!(
        Error::BufferTooShort.display_string(),
        "buffer too short for SOME/IP header (minimum 16 bytes)"
    );
    assert_eq!(
        Error::Truncated.display_string(),
        "packet truncated: buffer shorter than length field indicates"
    );
    assert_eq!(
        Error::InvalidMessageType(0xFF).display_string(),
        "invalid message type: 0xFF"
    );
    assert_eq!(
        Error::InvalidReturnCode(0x5F).display_string(),
        "invalid return code: 0x5F"
    );
}

#[test]
fn test_packet_display() {
    let buffer = vec![
        0x12, 0x34, 0x00, 0x01, // Message ID
        0x00, 0x00, 0x00, 0x0C, // Length
        0x01, 0x02, 0x00, 0x01, // Request ID
        0x01, // Protocol version
        0x01, // Interface version
        0x00, // Message type
        0x00, // Return code
        0xDE, 0xAD, 0xBE, 0xEF, // Payload
    ];
    let packet = Packet::new_checked(buffer).unwrap();
    assert_eq!(
        packet.display_string(),
        "Some/IP Packet: message_id=1234.0001, length=12, request_id=01.02.0001, \
         protocol_version=1, interface_version=1, message_type=0x00, return_code=0x00"
    );
}

#[test]
fn test_repr_display() {
    let repr = Repr::new(
        MessageId {
            service_id: 0x1234,
            method_id: 0x0001,
        },
        RequestId {
            client_id: ClientId {
                client_id_prefix: 0x01,
                client_id: 0x02,
            },
            session_id: 0x0001,
        },
        0x01,
        0x01,
        MessageType::Request,
        ReturnCode::E_OK,
        &[0xDE, 0xAD, 0xBE, 0xEF],
    );
    assert_eq!(
        repr.display_string(),
        "SOME/IP Payload: message_id=1234.0001, length=12, request_id=01.02.0001, \
         protocol_version=1, interface_version=1, message_type=Request, return_code=E_OK, \
         data_len=4"
    );
}
