use z21_api::error::Z21Error;
use z21_api::packet::Packet;

#[test]
fn encode_layout_is_little_endian() {
    let p = Packet::with_header_and_data(0x0584, &[0xAA, 0xBB, 0xCC]);
    assert_eq!(p.get_header(), 0x0584);
    assert_eq!(p.get_data_len(), 7);
    assert_eq!(p.get_data(), vec![0xAA, 0xBB, 0xCC]);
    let bytes = p.to_bytes();
    assert_eq!(bytes, vec![0x07, 0x00, 0x84, 0x05, 0xAA, 0xBB, 0xCC]);
}

#[test]
fn frame_round_trip() {
    let payloads: Vec<Vec<u8>> = vec![
        vec![],
        vec![0x01],
        vec![0xFF, 0x00, 0x80, 0x7F],
        (0..100u8).collect(),
    ];
    for payload in payloads {
        let p = Packet::with_header_and_data(0x40, payload.as_slice());
        let bytes = p.to_bytes();
        let q = Packet::try_from_bytes(bytes.as_slice()).unwrap();
        assert_eq!(q.get_header(), 0x40);
        assert_eq!(q.get_data(), payload);
        assert_eq!(q.get_data_len() as usize, payload.len() + 4);
    }
}

#[test]
fn decode_rejects_short_datagram() {
    assert!(matches!(
        Packet::try_from_bytes(&[]),
        Err(Z21Error::TooShort)
    ));
    assert!(matches!(
        Packet::try_from_bytes(&[0x04, 0x00, 0x10]),
        Err(Z21Error::TooShort)
    ));
}

#[test]
fn decode_reports_length_field_as_read() {
    // The frame layer is format-only: an inconsistent length field is
    // reported, not repaired.
    let q = Packet::try_from_bytes(&[0x09, 0x00, 0x10, 0x00, 0x01]).unwrap();
    assert_eq!(q.get_data_len(), 9);
    assert_eq!(q.get_data(), vec![0x01]);
}

#[test]
fn largest_payload_encodes() {
    let payload = vec![0x5Au8; 65531];
    let p = Packet::with_header_and_data(0x40, payload.as_slice());
    assert_eq!(p.get_data_len(), 65535);
    let bytes = p.to_bytes();
    assert_eq!(bytes.len(), 65535);
    let q = Packet::try_from_bytes(bytes.as_slice()).unwrap();
    assert_eq!(q.get_data(), payload);
}
