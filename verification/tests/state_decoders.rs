use z21_api::error::Z21Error;
use z21_api::messages::{
    decode_speed_per_mille, encode_speed_byte, DccThrottleSteps, LocoState, SystemState,
    XBusMessage,
};

#[test]
fn system_state_decodes_exact_fields() {
    let data: Vec<u8> = vec![
        0x2C, 0x01, // main current: 300 mA
        0xFE, 0xFF, // prog current: -2 mA
        0x10, 0x27, // filtered main current: 10000 mA
        0xE7, 0xFF, // temperature: -25
        0x34, 0x2F, // supply voltage: 12084 mV
        0x52, 0x40, // track voltage: 16466 mV
        0x01, 0x02, 0x03, 0x04, // status and capability bytes
    ];
    let s = SystemState::try_from_bytes(data.as_slice()).unwrap();
    assert_eq!(s.main_current, 300);
    assert_eq!(s.prog_current, -2);
    assert_eq!(s.filtered_main_current, 10000);
    assert_eq!(s.temperature, -25);
    assert_eq!(s.supply_voltage, 12084);
    assert_eq!(s.vcc_voltage, 16466);
    assert_eq!(s.central_state, 0x01);
    assert_eq!(s.central_state_ex, 0x02);
    assert_eq!(s.reserved, 0x03);
    assert_eq!(s.capabilities, 0x04);
}

#[test]
fn system_state_rejects_fifteen_and_seventeen_bytes() {
    let fifteen = vec![0u8; 15];
    let seventeen = vec![0u8; 17];
    assert!(matches!(
        SystemState::try_from_bytes(fifteen.as_slice()),
        Err(Z21Error::WrongLength)
    ));
    assert!(matches!(
        SystemState::try_from_bytes(seventeen.as_slice()),
        Err(Z21Error::WrongLength)
    ));
    assert!(SystemState::try_from_bytes(&vec![0u8; 16]).is_ok());
}

#[test]
fn loco_state_two_bytes_yields_address_only() {
    let msg = XBusMessage::new_dbs_vec(0xEF, vec![0xC0, 0x03]);
    let s = LocoState::try_from_message(&msg).unwrap();
    // The two highest bits of the first address byte are ignored.
    assert_eq!(s.address, 3);
    assert!(s.is_busy.is_none());
    assert!(s.stepping.is_none());
    assert!(s.speed_per_mille.is_none());
    assert!(s.double_traction.is_none());
    assert!(s.smart_search.is_none());
    assert!(s.functions.is_none());
}

#[test]
fn loco_state_nine_bytes_populates_every_field() {
    // Address 0x1234 & 0x3FFF, not busy, 128 steps, forward at 40/128,
    // double traction on, smart search off, and a few function flags.
    let dbs = vec![
        0x12,
        0x34,
        0x04,
        0x80 | 40,
        0x40 | 0x10 | 0x01,
        0x01,
        0x80,
        0x01,
        0x04,
    ];
    let msg = XBusMessage::new_dbs_vec(0xEF, dbs);
    let s = LocoState::try_from_message(&msg).unwrap();
    assert_eq!(s.address, 0x1234);
    assert_eq!(s.is_busy, Some(false));
    assert_eq!(s.stepping, Some(DccThrottleSteps::Steps128));
    // 40 of 128 steps forward: 312 per mille, truncated.
    assert_eq!(s.speed_per_mille, Some(312));
    assert_eq!(s.double_traction, Some(true));
    assert_eq!(s.smart_search, Some(false));
    let f = s.functions.unwrap();
    assert_eq!(f.len(), 32);
    assert!(f[0]); // 0x10 in the fifth data byte
    assert!(f[1]); // 0x01 in the fifth data byte
    assert!(!f[2]);
    assert!(!f[3]);
    assert!(!f[4]);
    assert!(f[5]); // bit 0 of the sixth data byte
    assert!(!f[6]);
    assert!(f[20]); // bit 7 of the seventh data byte
    assert!(f[21]); // bit 0 of the eighth data byte
    assert!(f[31]); // bit 2 of the ninth data byte
    assert!(!f[30]);
}

#[test]
fn loco_state_busy_flag_and_reverse_speed() {
    // Busy, 28 steps, reverse at 14 of 28 steps.
    let dbs = vec![0x00, 0x07, 0x08 | 0x02, 14];
    let msg = XBusMessage::new_dbs_vec(0xEF, dbs);
    let s = LocoState::try_from_message(&msg).unwrap();
    assert_eq!(s.address, 7);
    assert_eq!(s.is_busy, Some(true));
    assert_eq!(s.stepping, Some(DccThrottleSteps::Steps28));
    assert_eq!(s.speed_per_mille, Some(-500));
    assert!(s.functions.is_none());
}

#[test]
fn loco_state_rejects_zero_and_one_byte() {
    let empty = XBusMessage::new_dbs_vec(0xEF, vec![]);
    assert!(matches!(
        LocoState::try_from_message(&empty),
        Err(Z21Error::TooShort)
    ));
    let one = XBusMessage::new_dbs_vec(0xEF, vec![0x00]);
    assert!(matches!(
        LocoState::try_from_message(&one),
        Err(Z21Error::TooShort)
    ));
}

#[test]
fn loco_state_rejects_reserved_stepping() {
    for bits in [1u8, 3, 5, 6, 7] {
        let msg = XBusMessage::new_dbs_vec(0xEF, vec![0x00, 0x03, bits]);
        assert!(matches!(
            LocoState::try_from_message(&msg),
            Err(Z21Error::InvalidStepping)
        ));
    }
}

#[test]
fn loco_state_from_raw_bytes_checks_checksum() {
    let msg = XBusMessage::new_dbs_vec(0xEF, vec![0x00, 0x03, 0x04, 0x80]);
    let bytes = msg.to_bytes();
    let s = LocoState::try_from_bytes(bytes.as_slice()).unwrap();
    assert_eq!(s.address, 3);
    let mut corrupted = bytes.clone();
    corrupted[1] ^= 0xFF;
    assert!(matches!(
        LocoState::try_from_bytes(corrupted.as_slice()),
        Err(Z21Error::ChecksumMismatch)
    ));
}

#[test]
fn speed_byte_exact_values() {
    // Forward half speed under 128 steps.
    assert_eq!(encode_speed_byte(DccThrottleSteps::Steps128, 500), 0xC0);
    // Reverse quarter speed: top bit clear, magnitude 0x20.
    let b = encode_speed_byte(DccThrottleSteps::Steps128, -250);
    assert_eq!(b & 0x80, 0);
    assert_eq!(b & 0x7F, 0x20);
    // Full forward under 28 steps.
    assert_eq!(encode_speed_byte(DccThrottleSteps::Steps28, 1000), 0x9C);
    // Zero encodes as a stationary byte with the forward bit unset.
    assert_eq!(encode_speed_byte(DccThrottleSteps::Steps128, 0), 0x00);
    assert_eq!(encode_speed_byte(DccThrottleSteps::Steps14, 0), 0x00);
}

#[test]
fn speed_byte_round_trip_within_one_step() {
    for steps in [
        DccThrottleSteps::Steps14,
        DccThrottleSteps::Steps28,
        DccThrottleSteps::Steps128,
    ] {
        let step_pm = 1000 / steps.step_count() as i16;
        for pm in -999i16..=999 {
            let b = encode_speed_byte(steps, pm);
            assert_eq!(b & 0x80 != 0, pm > 0);
            let back = decode_speed_per_mille(steps, b);
            if pm > 0 {
                assert!(0 <= back && back <= pm);
                assert!(pm - back <= step_pm + 1);
            } else {
                assert!(pm <= back && back <= 0);
                assert!(back - pm <= step_pm + 1);
            }
        }
    }
}

#[test]
fn speed_byte_decode_reproduces_sign() {
    assert_eq!(decode_speed_per_mille(DccThrottleSteps::Steps128, 0xC0), 500);
    assert_eq!(decode_speed_per_mille(DccThrottleSteps::Steps128, 0x20), -250);
    assert_eq!(decode_speed_per_mille(DccThrottleSteps::Steps28, 0x9C), 1000);
}

#[test]
fn throttle_steps_values() {
    assert_eq!(DccThrottleSteps::Steps14.wire_value(), 0x10);
    assert_eq!(DccThrottleSteps::Steps28.wire_value(), 0x12);
    assert_eq!(DccThrottleSteps::Steps128.wire_value(), 0x13);
    assert_eq!(DccThrottleSteps::Steps14.step_count(), 14);
    assert_eq!(DccThrottleSteps::Steps28.step_count(), 28);
    assert_eq!(DccThrottleSteps::Steps128.step_count(), 128);
    assert_eq!(DccThrottleSteps::default(), DccThrottleSteps::Steps128);
}
