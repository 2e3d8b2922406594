use z21_api::error::Z21Error;
use z21_api::messages::{DccThrottleSteps, XBusMessage};
use z21_api::packet::Packet;
use z21_api::station::{
    broadcast_flags_packet, first_match_index, logoff_packet, match_xbus_response,
    parse_serial_number, serial_number_request, system_state_request, track_power_message,
    xbus_packet, Loco, DEFAULT_BROADCAST_FLAGS, LAN_GET_SERIAL_NUMBER, LAN_LOGOFF,
    LAN_SET_BROADCASTFLAGS, LAN_SYSTEMSTATE_GETDATA, XBUS_LOCO_DRIVE, XBUS_LOCO_GET_INFO,
};

#[test]
fn request_builders_use_the_documented_headers() {
    let p = system_state_request();
    assert_eq!(p.get_header(), LAN_SYSTEMSTATE_GETDATA);
    assert_eq!(p.get_header(), 0x85);
    assert_eq!(p.get_data().len(), 0);

    let p = serial_number_request();
    assert_eq!(p.get_header(), LAN_GET_SERIAL_NUMBER);
    assert_eq!(p.get_header(), 0x10);
    assert_eq!(p.get_data().len(), 0);

    let p = logoff_packet();
    assert_eq!(p.get_header(), LAN_LOGOFF);
    assert_eq!(p.get_header(), 0x30);
    assert_eq!(p.get_data().len(), 0);
}

#[test]
fn broadcast_flags_payload_is_little_endian() {
    let p = broadcast_flags_packet(DEFAULT_BROADCAST_FLAGS);
    assert_eq!(p.get_header(), LAN_SET_BROADCASTFLAGS);
    assert_eq!(p.get_data(), vec![0x01, 0x00, 0x00, 0x00]);
    let p = broadcast_flags_packet(0x00010302);
    assert_eq!(p.get_data(), vec![0x02, 0x03, 0x01, 0x00]);
}

#[test]
fn track_power_messages() {
    let on = track_power_message(true);
    assert_eq!(on.get_x_header(), 0x21);
    assert_eq!(on.get_dbs(), &vec![0x81]);
    assert_eq!(on.get_xor(), 0x21 ^ 0x81);
    let off = track_power_message(false);
    assert_eq!(off.get_dbs(), &vec![0x80]);
}

#[test]
fn serial_number_request_and_reply_round_trip() {
    // The scenario of a session handshake for the serial number, at the
    // codec level: build the request, let a simulated device answer with
    // a four-byte little-endian serial, decode and parse the reply.
    let request = serial_number_request();
    let wire_request = request.to_bytes();
    assert_eq!(wire_request, vec![0x04, 0x00, 0x10, 0x00]);

    let device_reply = Packet::with_header_and_data(0x10, &[0x78, 0x56, 0x34, 0x12]);
    let wire_reply = device_reply.to_bytes();
    let received = Packet::try_from_bytes(wire_reply.as_slice()).unwrap();
    assert_eq!(received.get_header(), 0x10);
    assert_eq!(parse_serial_number(&received).unwrap(), 0x12345678);
}

#[test]
fn serial_number_reply_too_short() {
    let p = Packet::with_header_and_data(0x10, &[0x01, 0x02]);
    assert!(matches!(
        parse_serial_number(&p),
        Err(Z21Error::TooShort)
    ));
}

#[test]
fn xbus_packet_wraps_sub_message() {
    let msg = XBusMessage::new_single(0x21, 0x81);
    let p = xbus_packet(&msg);
    assert_eq!(p.get_header(), 0x40);
    assert_eq!(p.get_data(), vec![0x21, 0x81, 0x21 ^ 0x81]);
    assert_eq!(p.get_data_len(), 7);
}

#[test]
fn match_xbus_response_filters_by_channel_checksum_and_sub_header() {
    let msg = XBusMessage::new_single(0x61, 0x01);
    let p = xbus_packet(&msg);
    // The expected sub-header matches.
    let m = match_xbus_response(&p, 0x61).unwrap();
    assert_eq!(m.get_x_header(), 0x61);
    assert_eq!(m.get_dbs(), &vec![0x01]);
    // Another sub-header does not.
    assert!(match_xbus_response(&p, 0xEF).is_none());
    // A frame on another channel does not.
    let other = Packet::with_header_and_data(0x84, &[0x61, 0x01, 0x60]);
    assert!(match_xbus_response(&other, 0x61).is_none());
    // A corrupted sub-message does not.
    let bad = Packet::with_header_and_data(0x40, &[0x61, 0x01, 0x00]);
    assert!(match_xbus_response(&bad, 0x61).is_none());
    // An empty command-channel frame does not.
    let empty = Packet::with_header_and_data(0x40, &[]);
    assert!(match_xbus_response(&empty, 0x61).is_none());
}

#[test]
fn concurrent_waiters_share_one_reply() {
    // Two request-response waiters filter the same fan-out stream for the
    // same header while only one matching reply was published: each scans
    // its own copy of the stream, so both resolve to that reply and
    // neither starves the other.
    let frames = vec![
        Packet::with_header_and_data(0x84, &[0u8; 16]),
        Packet::with_header_and_data(0x10, &[0x78, 0x56, 0x34, 0x12]),
        Packet::with_header_and_data(0x84, &[0u8; 16]),
    ];
    let waiter_one = first_match_index(&frames, 0x10);
    let waiter_two = first_match_index(&frames, 0x10);
    assert_eq!(waiter_one, Some(1));
    assert_eq!(waiter_two, Some(1));
    // A waiter with another filter resolves independently.
    let waiter_three = first_match_index(&frames, 0x84);
    assert_eq!(waiter_three, Some(0));
    // A filter nothing matches does not resolve.
    assert_eq!(first_match_index(&frames, 0x51), None);
}

#[test]
fn drive_message_full_forward_28_steps() {
    // Drive at 100% forward under 28-step mode: stepping coding, the
    // big-endian address, then 0x80 | 28.
    let loco = Loco::new(3, DccThrottleSteps::Steps28);
    let m = loco.drive_speed_message(1000);
    assert_eq!(m.get_x_header(), XBUS_LOCO_DRIVE);
    assert_eq!(m.get_dbs(), &vec![0x12, 0x00, 0x03, 0x9C]);
}

#[test]
fn stop_and_halt_share_the_drive_command() {
    let loco = Loco::new(1234, DccThrottleSteps::Steps128);
    let stop = loco.stop_message();
    assert_eq!(stop.get_x_header(), 0xE4);
    assert_eq!(stop.get_dbs(), &vec![0x13, 0x04, 0xD2, 0x00]);
    let halt = loco.halt_message();
    assert_eq!(halt.get_x_header(), 0xE4);
    assert_eq!(halt.get_dbs(), &vec![0x13, 0x04, 0xD2, 0x01]);
}

#[test]
fn info_request_message_layout() {
    let loco = Loco::new(9999, DccThrottleSteps::Steps128);
    let m = loco.info_request_message();
    assert_eq!(m.get_x_header(), XBUS_LOCO_GET_INFO);
    assert_eq!(m.get_dbs(), &vec![0xF0, 0x27, 0x0F]);
}

#[test]
fn function_message_packs_action_and_index() {
    let loco = Loco::new(3, DccThrottleSteps::Steps128);
    // Toggle F5: action 2 in the top bits, index 5 below.
    let m = loco.function_message(5, 2).unwrap();
    assert_eq!(m.get_x_header(), 0xE4);
    assert_eq!(m.get_dbs(), &vec![0xF8, 0x00, 0x03, 0x85]);
    // An address of 128 or above gets the top bits of its high byte set.
    let far = Loco::new(1234, DccThrottleSteps::Steps128);
    let m = far.function_message(0, 1).unwrap();
    assert_eq!(m.get_dbs(), &vec![0xF8, 0xC4, 0xD2, 0x40]);
}

#[test]
fn function_message_rejects_bad_input() {
    let loco = Loco::new(3, DccThrottleSteps::Steps128);
    assert!(matches!(
        loco.function_message(32, 1),
        Err(Z21Error::InvalidInput)
    ));
    assert!(matches!(
        loco.function_message(0, 3),
        Err(Z21Error::InvalidInput)
    ));
    assert!(loco.function_message(31, 2).is_ok());
}

#[test]
fn headlights_use_function_zero() {
    let loco = Loco::new(3, DccThrottleSteps::Steps128);
    let on = loco.headlights_message(true);
    assert_eq!(on.get_dbs(), &vec![0xF8, 0x00, 0x03, 0x40]);
    let off = loco.headlights_message(false);
    assert_eq!(off.get_dbs(), &vec![0xF8, 0x00, 0x03, 0x00]);
}
