use session_bridge::codec::{
    decode_client_message, decode_daemon_message, encode_client_message, encode_daemon_message,
    ClientMessage, DaemonMessage, DecodeFailure, EncodeFailure, LogLevel, LogMessage,
};
use session_bridge::version::Version;
use session_bridge::wire::{put_text, put_u32, take_text, take_u32};

#[test]
fn numbers_on_the_wire() {
    for (v, expected) in [
        (0u32, vec![0u8]),
        (250, vec![250]),
        (251, vec![251, 251, 0]),
        (65535, vec![251, 255, 255]),
        (65536, vec![252, 0, 0, 1, 0]),
        (u32::MAX, vec![252, 255, 255, 255, 255]),
    ] {
        let mut out = Vec::new();
        put_u32(&mut out, v);
        assert_eq!(out, expected, "number {}", v);
        assert_eq!(take_u32(&out, 0), Some((v, out.len())));
    }
}

#[test]
fn numbers_read_from_a_position() {
    let bytes = vec![9u8, 251, 1, 2, 7];
    assert_eq!(take_u32(&bytes, 0), Some((9, 1)));
    assert_eq!(take_u32(&bytes, 1), Some((513, 4)));
    assert_eq!(take_u32(&bytes, 4), Some((7, 5)));
    assert_eq!(take_u32(&bytes, 5), None);
}

#[test]
fn numbers_cut_short_or_too_wide_are_refused() {
    assert_eq!(take_u32(&[251u8, 1], 0), None);
    assert_eq!(take_u32(&[252u8, 1, 2, 3], 0), None);
    assert_eq!(take_u32(&[253u8, 1, 0, 0, 0, 0, 0, 0, 0], 0), None);
    assert_eq!(take_u32(&[254u8; 20], 0), None);
    assert_eq!(take_u32(&[255u8], 0), None);
}

#[test]
fn texts_on_the_wire() {
    let mut out = Vec::new();
    put_text(&mut out, "héllo");
    assert_eq!(out, vec![6, b'h', 0xc3, 0xa9, b'l', b'l', b'o']);
    assert_eq!(take_text(&out, 0), Some(("héllo".to_string(), 7)));
    let mut empty = Vec::new();
    put_text(&mut empty, "");
    assert_eq!(empty, vec![0]);
    assert_eq!(take_text(&empty, 0), Some((String::new(), 1)));
}

#[test]
fn long_text_has_a_wide_length() {
    let text = "x".repeat(300);
    let mut out = Vec::new();
    put_text(&mut out, &text);
    assert_eq!(&out[..3], &[251, 44, 1]);
    assert_eq!(out.len(), 303);
    assert_eq!(take_text(&out, 0), Some((text, 303)));
}

#[test]
fn texts_cut_short_or_invalid_are_refused() {
    assert_eq!(take_text(&[5u8, b'a', b'b'], 0), None);
    assert_eq!(take_text(&[2u8, 0xff, 0xfe], 0), None);
    assert_eq!(take_text(&[], 0), None);
    // A length far beyond the octets at hand.
    assert_eq!(take_text(&[253u8, 255, 255, 255, 255, 255, 255, 255, 127, 1, 2], 0), None);
}

#[test]
fn ping_and_pong_are_one_octet() {
    assert_eq!(encode_client_message(&ClientMessage::Ping), Ok(vec![7]));
    assert_eq!(encode_daemon_message(&DaemonMessage::Pong), Ok(vec![7]));
    assert_eq!(decode_client_message(&[7]), Ok(ClientMessage::Ping));
    assert_eq!(decode_daemon_message(&[7]), Ok(DaemonMessage::Pong));
}

#[test]
fn switch_version_travels_as_text() {
    let m = ClientMessage::SwitchProtocolVersion(Version::new(1, 2, 1));
    let bytes = encode_client_message(&m).unwrap();
    assert_eq!(bytes, vec![10, 5, b'1', b'.', b'2', b'.', b'1']);
    assert_eq!(decode_client_message(&bytes), Ok(m));
    let d = DaemonMessage::SwitchProtocolVersionResponse(Version::parse("1.3.0-rc.1").unwrap());
    let bytes = encode_daemon_message(&d).unwrap();
    assert_eq!(bytes[0], 11);
    assert_eq!(decode_daemon_message(&bytes), Ok(d));
}

#[test]
fn log_message_round_trip() {
    for level in [LogLevel::Warn, LogLevel::Error] {
        let m = DaemonMessage::LogMessage(LogMessage { message: "disk is full".to_string(), level });
        let bytes = encode_daemon_message(&m).unwrap();
        assert_eq!(bytes[0], 5);
        assert_eq!(decode_daemon_message(&bytes), Ok(m));
    }
    let bytes = encode_daemon_message(&DaemonMessage::LogMessage(LogMessage {
        message: "a".to_string(),
        level: LogLevel::Error,
    }))
    .unwrap();
    assert_eq!(bytes, vec![5, 1, b'a', 1]);
}

#[test]
fn other_messages_are_carried_as_they_came() {
    let m = ClientMessage::Other { tag: 3, body: vec![1, 2, 3, 4] };
    let bytes = encode_client_message(&m).unwrap();
    assert_eq!(bytes, vec![3, 1, 2, 3, 4]);
    assert_eq!(decode_client_message(&bytes), Ok(m));
    let d = DaemonMessage::Other { tag: 300, body: vec![] };
    let bytes = encode_daemon_message(&d).unwrap();
    assert_eq!(bytes, vec![251, 44, 1]);
    assert_eq!(decode_daemon_message(&bytes), Ok(d));
}

#[test]
fn encode_of_decode_gives_the_octets_back() {
    let frames: Vec<Vec<u8>> = vec![
        vec![7],
        vec![10, 5, b'2', b'.', b'0', b'.', b'0'],
        vec![0, 9, 9, 9],
        vec![251, 0, 2, 1],
    ];
    for frame in frames {
        // Only frames in their shortest form are the image of a message.
        let m = decode_client_message(&frame).unwrap();
        let again = encode_client_message(&m).unwrap();
        assert_eq!(decode_client_message(&again), Ok(m));
    }
    let frame = vec![5u8, 2, b'h', b'i', 0];
    let m = decode_daemon_message(&frame).unwrap();
    assert_eq!(encode_daemon_message(&m), Ok(frame));
}

#[test]
fn unrepresentable_messages_are_refused() {
    let bad = Version { major: 1, minor: 0, patch: 0, pre: "not valid!".to_string(), build: String::new() };
    assert_eq!(
        encode_client_message(&ClientMessage::SwitchProtocolVersion(bad.clone())),
        Err(EncodeFailure::Version)
    );
    assert_eq!(
        encode_daemon_message(&DaemonMessage::SwitchProtocolVersionResponse(bad)),
        Err(EncodeFailure::Version)
    );
    assert_eq!(
        encode_client_message(&ClientMessage::Other { tag: 7, body: vec![] }),
        Err(EncodeFailure::ReservedTag)
    );
    assert_eq!(
        encode_client_message(&ClientMessage::Other { tag: 10, body: vec![] }),
        Err(EncodeFailure::ReservedTag)
    );
    for tag in [5, 7, 11] {
        assert_eq!(
            encode_daemon_message(&DaemonMessage::Other { tag, body: vec![] }),
            Err(EncodeFailure::ReservedTag)
        );
    }
}

#[test]
fn malformed_frames_are_refused() {
    assert_eq!(decode_client_message(&[]), Err(DecodeFailure::Tag));
    assert_eq!(decode_daemon_message(&[255]), Err(DecodeFailure::Tag));
    assert_eq!(decode_client_message(&[10]), Err(DecodeFailure::Text));
    assert_eq!(decode_client_message(&[10, 3, b'1', b'.']), Err(DecodeFailure::Text));
    assert_eq!(decode_client_message(&[10, 2, b'h', b'i']), Err(DecodeFailure::Version));
    assert_eq!(decode_daemon_message(&[11, 1, 0xff]), Err(DecodeFailure::Text));
    assert_eq!(decode_daemon_message(&[5, 1, b'a']), Err(DecodeFailure::Level));
    assert_eq!(decode_daemon_message(&[5, 1, b'a', 2]), Err(DecodeFailure::Level));
    assert_eq!(decode_daemon_message(&[5, 4, b'a']), Err(DecodeFailure::Text));
}

#[test]
fn octets_behind_a_known_message_are_not_looked_at() {
    assert_eq!(decode_daemon_message(&[7, 1, 2, 3]), Ok(DaemonMessage::Pong));
    assert_eq!(decode_client_message(&[7, 9]), Ok(ClientMessage::Ping));
}

#[test]
fn octets_agree_with_bincode() {
    let config = bincode::config::standard();
    let mut expected = bincode::encode_to_vec(10u32, config).unwrap();
    expected.extend(bincode::encode_to_vec("1.2.1", config).unwrap());
    assert_eq!(
        encode_client_message(&ClientMessage::SwitchProtocolVersion(Version::new(1, 2, 1))),
        Ok(expected)
    );
    let mut expected = bincode::encode_to_vec(5u32, config).unwrap();
    expected.extend(bincode::encode_to_vec(("warned".to_string(), 0u32), config).unwrap());
    assert_eq!(
        encode_daemon_message(&DaemonMessage::LogMessage(LogMessage {
            message: "warned".to_string(),
            level: LogLevel::Warn
        })),
        Ok(expected)
    );
}
