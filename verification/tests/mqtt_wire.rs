use mqtt_gate::mqtt_codec::{decode_varint, encode_varint, CodecError, ProtocolError};
use mqtt_gate::mqtt_packet::{
    decode_packet, decode_publish, encode_connect, encode_disconnect, encode_pingreq, encode_puback, encode_publish,
    encode_subscribe, is_decodable, Packet, QoS,
};
use mqtt_gate::mqtt_session::{
    ClientError, ConnectReasonCode, ConnectionState, MqttOptions, MqttSession,
};

const MALFORMED: CodecError = CodecError::Protocol(ProtocolError::MalformedPacket);

#[test]
fn varint_encoding() {
    assert_eq!(encode_varint(0), vec![0]);
    assert_eq!(encode_varint(127), vec![127]);
    assert_eq!(encode_varint(128), vec![0x80, 0x01]);
    assert_eq!(encode_varint(16383), vec![0xFF, 0x7F]);
    assert_eq!(encode_varint(16384), vec![0x80, 0x80, 0x01]);
    assert_eq!(encode_varint(268_435_455), vec![0xFF, 0xFF, 0xFF, 0x7F]);
}

#[test]
fn varint_decoding() {
    assert_eq!(decode_varint(&[0x80, 0x01, 0x55], 0), Ok((128, 2)));
    assert_eq!(decode_varint(&[0x00, 0xFF, 0x7F], 1), Ok((16383, 3)));
    assert_eq!(decode_varint(&[0x80], 0), Err(MALFORMED));
    assert_eq!(decode_varint(&[0xFF, 0xFF, 0xFF, 0xFF, 0x7F], 0), Err(MALFORMED));
    assert_eq!(decode_varint(&[0x05], 3), Err(MALFORMED));
    for v in [0usize, 1, 127, 128, 300, 16384, 2_097_151, 268_435_455] {
        let bytes = encode_varint(v);
        assert_eq!(decode_varint(&bytes, 0), Ok((v, bytes.len())));
    }
}

#[test]
fn publish_encoding() {
    assert_eq!(
        encode_publish("a/b", QoS::AtMostOnce, false, b"hi", None).unwrap(),
        vec![0x30, 7, 0, 3, b'a', b'/', b'b', b'h', b'i']
    );
    assert_eq!(
        encode_publish("a/b", QoS::AtLeastOnce, true, b"hi", Some(10)).unwrap(),
        vec![0x33, 9, 0, 3, b'a', b'/', b'b', 0, 10, b'h', b'i']
    );
    // QoS 0 carries no packet identifier even if one is given.
    assert_eq!(
        encode_publish("t", QoS::AtMostOnce, false, b"", Some(5)).unwrap(),
        vec![0x30, 3, 0, 1, b't']
    );
}

#[test]
fn publish_encoding_errors() {
    assert_eq!(encode_publish("t", QoS::AtLeastOnce, false, b"x", None), Err(MALFORMED));
    assert_eq!(
        encode_publish("t", QoS::AtMostOnce, false, &[0u8; 600], None),
        Err(CodecError::BufferTooSmall)
    );
    let long_topic = "x".repeat(70_000);
    assert_eq!(
        encode_publish(&long_topic, QoS::AtMostOnce, false, b"", None),
        Err(CodecError::Protocol(ProtocolError::PayloadTooLarge))
    );
    // exactly fills the room for the body: 2 + 3 + 502 = 507
    assert!(encode_publish("abc", QoS::AtMostOnce, false, &[1u8; 502], None).is_ok());
    assert_eq!(
        encode_publish("abc", QoS::AtMostOnce, false, &[1u8; 503], None),
        Err(CodecError::BufferTooSmall)
    );
}

#[test]
fn publish_roundtrip() {
    let bytes = encode_publish("mqtt_gate/cover/set", QoS::ExactlyOnce, true, b"OPEN", Some(300)).unwrap();
    let p = decode_publish(&bytes).unwrap();
    assert_eq!(p.topic, "mqtt_gate/cover/set");
    assert_eq!(p.qos, QoS::ExactlyOnce);
    assert!(p.retain);
    assert_eq!(p.payload, b"OPEN");
    assert_eq!(p.packet_id, Some(300));

    let bytes = encode_publish("ä", QoS::AtMostOnce, false, &[0u8; 200], None).unwrap();
    let p = decode_publish(&bytes).unwrap();
    assert_eq!(p.topic, "ä");
    assert_eq!(p.payload.len(), 200);
    assert_eq!(p.packet_id, None);
}

#[test]
fn publish_decoding_errors() {
    assert_eq!(decode_publish(&[0x36, 0]).unwrap_err(), MALFORMED);
    assert_eq!(decode_publish(&[0x30, 3, 0, 1, 0xFF]).unwrap_err(), CodecError::Protocol(ProtocolError::InvalidUtf8String));
    assert_eq!(decode_publish(&[0x30, 3, 0, 5, b'a']).unwrap_err(), MALFORMED);
    assert_eq!(decode_publish(&[0x32, 4, 0, 1, b'a', 0]).unwrap_err(), MALFORMED);
    // the payload is everything after the header, whatever the length byte says
    let p = decode_publish(&[0x30, 0, 0, 1, b'a', b'x', b'y']).unwrap();
    assert_eq!(p.payload, b"xy");
}

#[test]
fn connect_encoding() {
    let mut expected = vec![0x10, 21, 0, 4, b'M', b'Q', b'T', b'T', 4, 0x02, 0, 50, 0, 9];
    expected.extend_from_slice(b"mqtt_gate");
    assert_eq!(encode_connect("mqtt_gate", 50, true, None, None).unwrap(), expected);

    let mut expected = vec![0x10, 27, 0, 4, b'M', b'Q', b'T', b'T', 4, 0xC2, 0, 50, 0, 9];
    expected.extend_from_slice(b"mqtt_gate");
    expected.extend_from_slice(&[0, 1, b'u', 0, 1, b'p']);
    assert_eq!(encode_connect("mqtt_gate", 50, true, Some("u"), Some(b"p")).unwrap(), expected);
}

#[test]
fn subscribe_and_ping_encoding() {
    let mut expected = vec![0x82, 24, 0, 2, 0, 19];
    expected.extend_from_slice(b"mqtt_gate/cover/set");
    expected.push(1);
    assert_eq!(encode_subscribe(2, "mqtt_gate/cover/set", QoS::AtLeastOnce).unwrap(), expected);
    assert_eq!(encode_pingreq(), vec![0xC0, 0x00]);
    assert_eq!(encode_puback(0x1234), vec![0x40, 0x02, 0x12, 0x34]);
    assert_eq!(encode_disconnect(), vec![0xE0, 0x00]);
}

#[test]
fn packet_decoding() {
    assert!(decode_packet(&[]).unwrap().is_none());
    match decode_packet(&[0x20, 2, 1, 5]).unwrap().unwrap() {
        Packet::ConnAck { session_present, reason_code } => {
            assert!(session_present);
            assert_eq!(reason_code, 5);
        }
        other => panic!("unexpected {:?}", other),
    }
    match decode_packet(&[0x40, 2, 0, 7]).unwrap().unwrap() {
        Packet::PubAck { packet_id } => assert_eq!(packet_id, 7),
        other => panic!("unexpected {:?}", other),
    }
    match decode_packet(&[0x90, 3, 0x12, 0x34, 1]).unwrap().unwrap() {
        Packet::SubAck { packet_id, reason_codes } => {
            assert_eq!(packet_id, 0x1234);
            assert_eq!(reason_codes, vec![1]);
        }
        other => panic!("unexpected {:?}", other),
    }
    assert!(matches!(decode_packet(&[0xD0, 0]).unwrap(), Some(Packet::PingResp)));
    assert!(matches!(decode_packet(&[0xE0, 0]).unwrap(), Some(Packet::Disconnect)));
    assert!(matches!(decode_packet(&[0x82, 0]).unwrap(), Some(Packet::Subscribe)));
    assert_eq!(
        decode_packet(&[0xF0, 0]).unwrap_err(),
        CodecError::Protocol(ProtocolError::InvalidPacketType(15))
    );
    assert_eq!(decode_packet(&[0x40, 2]).unwrap_err(), MALFORMED);
    assert_eq!(
        decode_packet(&[0x90, 11, 0, 1, 2, 3, 4, 5, 6, 7, 8, 9, 10]).unwrap_err(),
        CodecError::BufferTooSmall
    );
    match decode_packet(&[0x90, 10, 0, 1, 2, 3, 4, 5, 6, 7, 8, 9]).unwrap().unwrap() {
        Packet::SubAck { packet_id, reason_codes } => {
            assert_eq!(packet_id, 1);
            assert_eq!(reason_codes, vec![2, 3, 4, 5, 6, 7, 8, 9]);
        }
        other => panic!("unexpected {:?}", other),
    }
    assert!(!is_decodable(&[0x20, 2]));
    assert!(is_decodable(&[0x20, 2, 0, 0]));
    assert!(is_decodable(&[]));
}

#[test]
fn connect_packet_decodes() {
    // flags at byte 8, keep-alive at 9-10, then the fields
    let buf = [0x10, 0, 0, 4, b'M', b'Q', b'T', b'T', 0xC2, 0, 60, 0, 2, b'i', b'd', 0, 1, b'u', 0, 2, b'p', b'w'];
    match decode_packet(&buf).unwrap().unwrap() {
        Packet::Connect { clean_session, keep_alive, client_id, username, password } => {
            assert!(clean_session);
            assert_eq!(keep_alive, 60);
            assert_eq!(client_id, "id");
            assert_eq!(username, Some("u"));
            assert_eq!(password, Some(&b"pw"[..]));
        }
        other => panic!("unexpected {:?}", other),
    }
    // byte 8 of an encoded CONNECT is the protocol level, read as the flags
    let bytes = encode_connect("id", 60, true, Some("user"), Some(b"pw")).unwrap();
    assert_eq!(decode_packet(&bytes).unwrap_err(), MALFORMED);
    assert!(!is_decodable(&[0x10, 0, 0]));
}

fn session() -> MqttSession {
    MqttSession::new(MqttOptions::new("mqtt_gate").with_keep_alive(50), 0)
}

#[test]
fn session_connects_and_numbers_packets() {
    let mut s = session();
    assert_eq!(s.state(), ConnectionState::Disconnected);
    assert_eq!(s.publish("t", b"x", QoS::AtMostOnce, false), Err(ClientError::NotConnected));
    let connect = s.connect().unwrap();
    assert_eq!(connect, encode_connect("mqtt_gate", 50, true, None, None).unwrap());
    assert_eq!(s.state(), ConnectionState::Connecting);
    assert_eq!(s.connect_reply(&[0x20, 2, 0, 0], 1_000), Ok(()));
    assert_eq!(s.state(), ConnectionState::Connected);
    assert_eq!(
        s.publish("t", b"x", QoS::AtLeastOnce, false).unwrap(),
        encode_publish("t", QoS::AtLeastOnce, false, b"x", Some(2)).unwrap()
    );
    assert_eq!(
        s.subscribe("a", QoS::AtLeastOnce).unwrap(),
        encode_subscribe(3, "a", QoS::AtLeastOnce).unwrap()
    );
}

#[test]
fn session_credentials_need_both() {
    let mut s = MqttSession::new(MqttOptions::new("c").with_credentials("u", b"p"), 0);
    assert_eq!(s.connect().unwrap(), encode_connect("c", 60, true, Some("u"), Some(b"p")).unwrap());
}

#[test]
fn session_refusals() {
    let mut s = session();
    s.connect().unwrap();
    assert_eq!(
        s.connect_reply(&[0x20, 2, 0, 5], 0),
        Err(ClientError::ConnectionRefused(ConnectReasonCode::NotAuthorized))
    );
    assert_eq!(s.state(), ConnectionState::Disconnected);
    s.connect().unwrap();
    assert_eq!(
        s.connect_reply(&[0xD0, 0], 0),
        Err(ClientError::Protocol(ProtocolError::InvalidResponse))
    );
    assert_eq!(s.state(), ConnectionState::Disconnected);
    s.connect().unwrap();
    assert_eq!(s.connect_reply(&[], 0), Err(ClientError::Protocol(ProtocolError::InvalidResponse)));
    assert_eq!(s.state(), ConnectionState::Connecting);
    assert_eq!(
        s.connect_reply(&[0x20, 2, 0, 9], 0),
        Err(ClientError::ConnectionRefused(ConnectReasonCode::Other(9)))
    );
}

#[test]
fn session_keep_alive_and_receive() {
    let mut s = session();
    assert_eq!(s.poll_start(0), Err(ClientError::NotConnected));
    s.connect().unwrap();
    s.connect_reply(&[0x20, 2, 0, 0], 1_000_000).unwrap();
    assert_eq!(s.poll_start(50_999_999), Ok(None));
    assert_eq!(s.poll_start(51_000_000), Ok(Some(vec![0xC0, 0x00])));
    s.sent(51_000_000);
    assert_eq!(s.poll_start(51_000_001), Ok(None));

    let bytes = encode_publish("mqtt_gate/cover/set", QoS::AtMostOnce, false, b"STOP", None).unwrap();
    let p = s.poll_received(&bytes).unwrap().unwrap();
    assert_eq!(p.topic, "mqtt_gate/cover/set");
    assert_eq!(p.payload, b"STOP");
    assert!(s.poll_received(&[0x90, 3, 0, 1, 0]).unwrap().is_none());
    assert!(s.poll_received(&[]).unwrap().is_none());
    assert_eq!(
        s.poll_received(&[0xF0]).unwrap_err(),
        ClientError::Protocol(ProtocolError::InvalidPacketType(15))
    );
}

#[test]
fn packet_ids_wrap_around_skipping_zero() {
    let mut s = session();
    s.connect().unwrap();
    s.connect_reply(&[0x20, 2, 0, 0], 0).unwrap();
    // identifiers 2 ..= 65534
    for _ in 2..=65534u32 {
        s.publish("t", b"", QoS::AtLeastOnce, false).unwrap();
    }
    assert_eq!(
        s.publish("t", b"", QoS::AtLeastOnce, false).unwrap(),
        encode_publish("t", QoS::AtLeastOnce, false, b"", Some(65535)).unwrap()
    );
    assert_eq!(
        s.publish("t", b"", QoS::AtLeastOnce, false).unwrap(),
        encode_publish("t", QoS::AtLeastOnce, false, b"", Some(1)).unwrap()
    );
    // QoS 0 takes no identifier
    s.publish("t", b"", QoS::AtMostOnce, false).unwrap();
    assert_eq!(
        s.subscribe("t", QoS::AtMostOnce).unwrap(),
        encode_subscribe(2, "t", QoS::AtMostOnce).unwrap()
    );
}
