use steamdeck_touch::report::{
    DecodeError, SteamDeckDeviceReport, decode_report, encode_haptic_pulse,
    encode_watchdog_disable,
};

fn report_bytes(r: &SteamDeckDeviceReport) -> [u8; 64] {
    let mut buf = [0u8; 64];
    let mask: u32 = if r.l4 { 0x200 } else { 0 };
    buf[12..16].copy_from_slice(&mask.to_le_bytes());
    buf[16..18].copy_from_slice(&r.l_pad_x.to_le_bytes());
    buf[18..20].copy_from_slice(&r.l_pad_y.to_le_bytes());
    buf[20..22].copy_from_slice(&r.r_pad_x.to_le_bytes());
    buf[22..24].copy_from_slice(&r.r_pad_y.to_le_bytes());
    buf[56..58].copy_from_slice(&r.l_pad_force.to_le_bytes());
    buf[58..60].copy_from_slice(&r.r_pad_force.to_le_bytes());
    buf
}

#[test]
fn decode_all_zero_buffer() {
    let buf = [0u8; 64];
    let r = decode_report(&buf).unwrap();
    assert_eq!(r.l_pad_x, 0);
    assert_eq!(r.l_pad_y, 0);
    assert_eq!(r.l_pad_force, 0);
    assert_eq!(r.r_pad_x, 0);
    assert_eq!(r.r_pad_y, 0);
    assert_eq!(r.r_pad_force, 0);
    assert!(!r.l4);
}

#[test]
fn decode_little_endian_order() {
    let mut buf = [0u8; 64];
    buf[16] = 0x34;
    buf[17] = 0x12;
    let r = decode_report(&buf).unwrap();
    assert_eq!(r.l_pad_x, 0x1234);
}

#[test]
fn decode_negative_coordinates() {
    let mut buf = [0u8; 64];
    buf[18] = 0xFF;
    buf[19] = 0xFF;
    buf[20] = 0x00;
    buf[21] = 0x80;
    let r = decode_report(&buf).unwrap();
    assert_eq!(r.l_pad_y, -1);
    assert_eq!(r.r_pad_x, i16::MIN);
}

#[test]
fn decode_side_button_bit() {
    let mut buf = [0u8; 64];
    buf[13] = 0x02;
    let r = decode_report(&buf).unwrap();
    assert!(r.l4);
    let mut other = [0u8; 64];
    other[13] = 0x01;
    other[12] = 0xFF;
    let r2 = decode_report(&other).unwrap();
    assert!(!r2.l4);
}

#[test]
fn decode_rejects_wrong_sizes() {
    assert_eq!(decode_report(&[0u8; 63]), Err(DecodeError::MalformedReport));
    assert_eq!(decode_report(&[0u8; 65]), Err(DecodeError::MalformedReport));
    assert_eq!(decode_report(&[]), Err(DecodeError::MalformedReport));
}

#[test]
fn roundtrip_all_zero_report() {
    let r = SteamDeckDeviceReport {
        l_pad_x: 0,
        l_pad_y: 0,
        l_pad_force: 0,
        r_pad_x: 0,
        r_pad_y: 0,
        r_pad_force: 0,
        l4: false,
    };
    let decoded = decode_report(&report_bytes(&r)).unwrap();
    assert_eq!(decoded, r);
}

#[test]
fn roundtrip_max_magnitude_report() {
    let r = SteamDeckDeviceReport {
        l_pad_x: i16::MIN,
        l_pad_y: i16::MAX,
        l_pad_force: u16::MAX,
        r_pad_x: i16::MAX,
        r_pad_y: i16::MIN,
        r_pad_force: u16::MAX,
        l4: true,
    };
    let decoded = decode_report(&report_bytes(&r)).unwrap();
    assert_eq!(decoded, r);
}

#[test]
fn watchdog_disable_command_layout() {
    assert_eq!(encode_watchdog_disable(), vec![0x87u8, 0x03, 71, 0x00, 0x00]);
}

#[test]
fn haptic_pulse_command_layout() {
    for pad in [0u8, 1, 2] {
        let buf = encode_haptic_pulse(pad);
        assert_eq!(
            buf,
            vec![0x00u8, 0x8F, 0x08, pad, 0xFF, 0xFF, 0x00, 0x00, 0x01, 0x00, 0xFF, 0x00]
        );
    }
}
