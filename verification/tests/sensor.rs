use temp_logger::sensor::get_temp;

#[test]
fn decodes_positive_reading() {
    let t = get_temp(&[0x01, 0x74, 0x19, 0x00]).ok().unwrap();
    assert_eq!(t.tr, 2325);
    assert_eq!(t.ta, 400);
    assert_eq!(t.msg, "OK");
}

#[test]
fn decodes_negative_reading() {
    let t = get_temp(&[0xFF, 0xFC, 0xFF, 0xF0]).ok().unwrap();
    assert_eq!(t.tr, -25);
    assert_eq!(t.ta, -1);
}

#[test]
fn decodes_extremes() {
    let hi = get_temp(&[0x7F, 0xFC, 0x7F, 0xF0]).ok().unwrap();
    assert_eq!(hi.tr, 8191 * 25);
    assert_eq!(hi.ta, 2047);
    let lo = get_temp(&[0x80, 0x00, 0x80, 0x00]).ok().unwrap();
    assert_eq!(lo.tr, -8192 * 25);
    assert_eq!(lo.ta, -2048);
}

#[test]
fn reports_open_circuit() {
    let e = get_temp(&[0x01, 0x74, 0x19, 0x01]).err().unwrap();
    assert_eq!(e.msg, "OC ERROR");
    assert_eq!(e.tr, 0);
    assert_eq!(e.ta, 0);
}

#[test]
fn reports_short_to_ground() {
    let e = get_temp(&[0x00, 0x00, 0x00, 0x02]).err().unwrap();
    assert_eq!(e.msg, "SCG ERROR");
}

#[test]
fn reports_short_to_vcc() {
    let e = get_temp(&[0x00, 0x00, 0x00, 0xF4]).err().unwrap();
    assert_eq!(e.msg, "SCV ERROR");
}

#[test]
fn several_fault_bits_read_as_a_reading() {
    assert!(get_temp(&[0x01, 0x74, 0x19, 0x03]).is_ok());
    assert!(get_temp(&[0x01, 0x74, 0x19, 0x07]).is_ok());
    assert!(get_temp(&[0x01, 0x74, 0x19, 0x08]).is_ok());
}

/// The integer decoding agrees with the converter's datasheet formula computed
/// in floating point, for every thermocouple and cold-junction byte pair.
#[test]
fn agrees_with_float_formula() {
    for b0 in 0..=255u8 {
        for b1 in (0..=255u8).step_by(4) {
            let b3: u8 = 0x10;
            let frame = [b0, b1, b0, b3];
            let t = get_temp(&frame).ok().unwrap();
            let tempval: i32 = (((b0 as i8) as i32) << 6) | ((b1 >> 2) as i32);
            let intempval: i32 = (((b0 as i8) as i32) << 4) | ((b3 >> 4) as i32);
            let tr = (tempval as f32) * 0.25;
            let ta = (intempval as f32) * 0.0625;
            assert_eq!(t.tr as f32, tr * 100.0);
            assert_eq!(t.ta as f32 * 0.0625, ta);
        }
    }
}
