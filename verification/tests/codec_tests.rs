use bore::codec::deserialize;
use bore::codec::serialize;
use bore::codec::Decoded;
use bore::msg::ControlMessage;
use bore::msg::TunnelError;

fn round_trip(m: ControlMessage) {
    let bytes = serialize(&m);
    match deserialize(bytes.as_slice()) {
        Decoded::Msg { msg, consumed } => {
            assert_eq!(msg, m);
            assert_eq!(consumed, bytes.len());
        }
        _ => panic!("frame did not decode"),
    }
}

#[test]
fn round_trip_hello() {
    round_trip(ControlMessage::Hello { requested_port: 0 });
    round_trip(ControlMessage::Hello { requested_port: 7000 });
    round_trip(ControlMessage::Hello { requested_port: 65535 });
}

#[test]
fn round_trip_challenge() {
    round_trip(ControlMessage::Challenge { nonce: 0 });
    round_trip(ControlMessage::Challenge { nonce: u128::MAX });
    round_trip(ControlMessage::Challenge { nonce: 0x0123_4567_89ab_cdef_fedc_ba98_7654_3210 });
}

#[test]
fn round_trip_authenticate() {
    round_trip(ControlMessage::Authenticate { proof: vec![] });
    round_trip(ControlMessage::Authenticate { proof: vec![0xde, 0xad, 0xbe, 0xef] });
    round_trip(ControlMessage::Authenticate { proof: vec![7u8; 32] });
}

#[test]
fn round_trip_hello_ack() {
    round_trip(ControlMessage::HelloAck { leased_port: 8000 });
}

#[test]
fn round_trip_new_connection() {
    round_trip(ControlMessage::NewConnection { id: 42 });
    round_trip(ControlMessage::NewConnection { id: u128::MAX - 1 });
}

#[test]
fn round_trip_accept_connection() {
    round_trip(ControlMessage::AcceptConnection { id: 42 });
}

#[test]
fn round_trip_heartbeat() {
    round_trip(ControlMessage::Heartbeat);
}

#[test]
fn round_trip_error_all_reasons() {
    for reason in [
        TunnelError::MalformedMessage,
        TunnelError::UnknownMessageType,
        TunnelError::ProtocolViolation,
        TunnelError::AuthenticationMismatch,
        TunnelError::AuthenticationFailed,
        TunnelError::NoPortsAvailable,
        TunnelError::PortOutOfRange,
        TunnelError::PortInUse,
        TunnelError::PeerUnreachable,
    ] {
        round_trip(ControlMessage::Error { reason });
    }
}

#[test]
fn incomplete_prefixes_ask_for_more() {
    let bytes = serialize(&ControlMessage::Challenge { nonce: 7 });
    for n in 0..bytes.len() {
        match deserialize(&bytes[..n]) {
            Decoded::Incomplete => {}
            _ => panic!("a strict prefix must be incomplete"),
        }
    }
}

#[test]
fn trailing_bytes_left_for_next_frame() {
    let mut bytes = serialize(&ControlMessage::Hello { requested_port: 9 });
    let first_len = bytes.len();
    let mut second = serialize(&ControlMessage::Heartbeat);
    bytes.append(&mut second);
    match deserialize(bytes.as_slice()) {
        Decoded::Msg { msg, consumed } => {
            assert_eq!(msg, ControlMessage::Hello { requested_port: 9 });
            assert_eq!(consumed, first_len);
        }
        _ => panic!("first frame must decode"),
    }
}

#[test]
fn unknown_tag_is_rejected() {
    // body = [tag 200]
    let bytes = vec![0u8, 1u8, 200u8];
    match deserialize(bytes.as_slice()) {
        Decoded::Bad { reason } => assert_eq!(reason, TunnelError::UnknownMessageType),
        _ => panic!("unknown tag must fail"),
    }
}

#[test]
fn truncated_body_is_malformed() {
    // Hello with only one port byte.
    let bytes = vec![0u8, 2u8, 0u8, 0x1b];
    match deserialize(bytes.as_slice()) {
        Decoded::Bad { reason } => assert_eq!(reason, TunnelError::MalformedMessage),
        _ => panic!("truncated body must fail"),
    }
}

#[test]
fn empty_body_is_malformed() {
    let bytes = vec![0u8, 0u8];
    match deserialize(bytes.as_slice()) {
        Decoded::Bad { reason } => assert_eq!(reason, TunnelError::MalformedMessage),
        _ => panic!("empty body must fail"),
    }
}

#[test]
fn unknown_error_code_is_malformed() {
    // Error frame with reason code 99.
    let bytes = vec![0u8, 2u8, 7u8, 99u8];
    match deserialize(bytes.as_slice()) {
        Decoded::Bad { reason } => assert_eq!(reason, TunnelError::MalformedMessage),
        _ => panic!("unknown reason code must fail"),
    }
}

#[test]
fn extra_fields_are_ignored() {
    // A Hello body with two extra bytes a newer peer might append.
    let bytes = vec![0u8, 5u8, 0u8, 0x1b, 0x39, 0xff, 0xff];
    match deserialize(bytes.as_slice()) {
        Decoded::Msg { msg, consumed } => {
            assert_eq!(msg, ControlMessage::Hello { requested_port: 0x1b39 });
            assert_eq!(consumed, 7);
        }
        _ => panic!("extra fields must not break decoding"),
    }
}

#[test]
fn frame_layout_is_fixed() {
    // The wire contract: two-byte big-endian length, tag, big-endian fields.
    let bytes = serialize(&ControlMessage::Hello { requested_port: 0x1b39 });
    assert_eq!(bytes, vec![0u8, 3u8, 0u8, 0x1b, 0x39]);
    let bytes = serialize(&ControlMessage::Heartbeat);
    assert_eq!(bytes, vec![0u8, 1u8, 6u8]);
}
