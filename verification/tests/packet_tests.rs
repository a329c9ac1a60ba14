use rercon::error::RconError;
use rercon::packet::{Packet, MAX_BODY_BYTES, TYPE_AUTH_RESPONSE, TYPE_EXEC, TYPE_RESPONSE};

#[test]
fn packet_serialize() {
    let buf = Packet::new(0x12345678, TYPE_RESPONSE, "This is a test string.".to_string())
        .create_packet_buffer()
        .unwrap();

    assert_eq!(
        buf,
        vec![
            32, 0, 0, 0, 120, 86, 52, 18, 0, 0, 0, 0, 84, 104, 105, 115, 32, 105, 115, 32, 97, 32,
            116, 101, 115, 116, 32, 115, 116, 114, 105, 110, 103, 46, 0, 0
        ]
    );
}

#[test]
fn packet_deserialize() {
    let buf = vec![
        33, 67, 101, 119, 2, 0, 0, 0, 84, 104, 105, 115, 32, 105, 115, 32, 97, 32, 100, 105, 102,
        102, 101, 114, 101, 110, 116, 32, 115, 116, 114, 105, 110, 103, 0, 0,
    ];
    let p = Packet::decode_packet_buffer(36, &buf).unwrap();
    assert_eq!(*p.get_id(), 0x77654321);
    assert_eq!(*p.get_packet_type(), TYPE_AUTH_RESPONSE);
    assert_eq!(p.get_body(), "This is a different string");
}

#[test]
fn round_trip_ascii_body() {
    let p = Packet::new(42, TYPE_EXEC, "status please".to_string());
    let wire = p.create_packet_buffer().unwrap();
    let len = wire.len() - 4;
    let q = Packet::decode_packet_buffer(len, &wire[4..]).unwrap();
    assert_eq!(*q.get_id(), 42);
    assert_eq!(*q.get_packet_type(), TYPE_EXEC);
    assert_eq!(q.get_body(), "status please");
}

#[test]
fn round_trip_multibyte_body() {
    let body = "héllo — ☃ — 日本語";
    let p = Packet::new(-7, TYPE_RESPONSE, body.to_string());
    let wire = p.create_packet_buffer().unwrap();
    let len = wire.len() - 4;
    let q = Packet::decode_packet_buffer(len, &wire[4..]).unwrap();
    assert_eq!(*q.get_id(), -7);
    assert_eq!(*q.get_packet_type(), TYPE_RESPONSE);
    assert_eq!(q.get_body(), body);
}

#[test]
fn round_trip_empty_body() {
    let p = Packet::new(1, TYPE_EXEC, String::new());
    let wire = p.create_packet_buffer().unwrap();
    assert_eq!(wire.len(), 14);
    let q = Packet::decode_packet_buffer(10, &wire[4..]).unwrap();
    assert_eq!(*q.get_id(), 1);
    assert_eq!(q.get_body(), "");
}

#[test]
fn body_of_exactly_1014_bytes_encodes() {
    let body = "a".repeat(MAX_BODY_BYTES);
    let p = Packet::new(5, TYPE_EXEC, body);
    let wire = p.create_packet_buffer().unwrap();
    assert_eq!(wire.len(), MAX_BODY_BYTES + 14);
}

#[test]
fn body_of_1015_bytes_is_command_too_long() {
    let body = "a".repeat(MAX_BODY_BYTES + 1);
    let p = Packet::new(5, TYPE_EXEC, body);
    assert_eq!(p.create_packet_buffer(), Err(RconError::CommandTooLong));
}

#[test]
fn length_field_is_body_length_plus_ten() {
    for n in [0usize, 1, 7, 100, 1014] {
        let body = "x".repeat(n);
        let wire = Packet::new(9, TYPE_RESPONSE, body).create_packet_buffer().unwrap();
        let len = u32::from_le_bytes([wire[0], wire[1], wire[2], wire[3]]) as usize;
        assert_eq!(len, n + 10);
        // the length field counts exactly the bytes that follow it
        assert_eq!(wire.len() - 4, len);
    }
}

#[test]
fn negative_id_survives_the_wire() {
    let p = Packet::new(-1, TYPE_AUTH_RESPONSE, String::new());
    let wire = p.create_packet_buffer().unwrap();
    let q = Packet::decode_packet_buffer(10, &wire[4..]).unwrap();
    assert_eq!(*q.get_id(), -1);
    assert_eq!(*q.get_packet_type(), TYPE_AUTH_RESPONSE);
}

#[test]
fn invalid_utf8_body_is_encoding_error() {
    // id 1, kind 0, body = one stray continuation byte, double NUL
    let buf = vec![1, 0, 0, 0, 0, 0, 0, 0, 0xFF, 0, 0];
    assert_eq!(Packet::decode_packet_buffer(11, &buf), Err(RconError::UTFEncoding));
}
