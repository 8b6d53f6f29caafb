use pulse_osc::measurement::{decode, DecodeError, HeartRateMeasurement};

fn declared_len(flags: u8) -> usize {
    let mut len = 2;
    if flags & 0x01 != 0 {
        len += 1;
    }
    if flags & 0x08 != 0 {
        len += 2;
    }
    len
}

#[test]
fn eight_bit_heart_rate_without_optional_fields() {
    let m = decode(&[0x00, 0x46]).unwrap();
    assert_eq!(
        m,
        HeartRateMeasurement {
            heart_rate: 70,
            sensor_contact_detected: false,
            sensor_contact_supported: false,
            energy_expended_present: false,
            energy_expended: 0,
            rr_intervals: vec![],
        }
    );
}

#[test]
fn sixteen_bit_heart_rate_with_energy_and_rr_intervals() {
    let m = decode(&[0x19, 0x46, 0x00, 0x64, 0x00, 0x20, 0x03, 0x30, 0x03]).unwrap();
    assert_eq!(m.heart_rate, 70);
    assert!(m.energy_expended_present);
    assert_eq!(m.energy_expended, 100);
    assert_eq!(m.rr_intervals, vec![800, 816]);
    assert!(!m.sensor_contact_detected);
    assert!(!m.sensor_contact_supported);
}

#[test]
fn dangling_byte_after_rr_intervals_is_ignored() {
    let even = decode(&[0x10, 0x46, 0x20, 0x03, 0x30, 0x03]).unwrap();
    let odd = decode(&[0x10, 0x46, 0x20, 0x03, 0x30, 0x03, 0xAA]).unwrap();
    assert_eq!(even.rr_intervals, vec![800, 816]);
    assert_eq!(odd, even);

    let short = decode(&[0x10, 0x46, 0x20, 0x03, 0x30]).unwrap();
    assert_eq!(short.rr_intervals, vec![800]);

    let lone = decode(&[0x10, 0x46, 0x20]).unwrap();
    assert_eq!(lone.rr_intervals, Vec::<u16>::new());
}

#[test]
fn rr_flag_with_nothing_after_the_declared_fields() {
    let m = decode(&[0x10, 0x46]).unwrap();
    assert_eq!(m.heart_rate, 70);
    assert!(m.rr_intervals.is_empty());
}

#[test]
fn empty_buffer_is_malformed() {
    assert_eq!(decode(&[]), Err(DecodeError::MalformedPayload));
}

#[test]
fn flags_alone_are_malformed() {
    for flags in 0..=255u8 {
        assert_eq!(decode(&[flags]), Err(DecodeError::MalformedPayload));
    }
}

#[test]
fn truncated_sixteen_bit_heart_rate_is_malformed() {
    assert_eq!(decode(&[0x01, 0x46]), Err(DecodeError::MalformedPayload));
    assert_eq!(decode(&[0x01, 0x46, 0x01]).unwrap().heart_rate, 0x0146);
}

#[test]
fn truncated_energy_field_is_malformed() {
    assert_eq!(decode(&[0x08, 0x46]), Err(DecodeError::MalformedPayload));
    assert_eq!(decode(&[0x08, 0x46, 0x64]), Err(DecodeError::MalformedPayload));
    assert_eq!(decode(&[0x09, 0x46, 0x00, 0x64]), Err(DecodeError::MalformedPayload));
    assert_eq!(decode(&[0x08, 0x46, 0x64, 0x00]).unwrap().energy_expended, 100);
}

#[test]
fn every_flag_byte_needs_exactly_its_declared_length() {
    for flags in 0..=255u8 {
        let need = declared_len(flags);
        for len in 0..=12usize {
            let mut bytes = vec![0x5Au8; len];
            if len > 0 {
                bytes[0] = flags;
            }
            let result = decode(&bytes);
            if len < need {
                assert_eq!(result, Err(DecodeError::MalformedPayload), "flags {flags:#04x} len {len}");
            } else {
                let m = result.unwrap();
                let expected_rr = if flags & 0x10 != 0 { (len - need) / 2 } else { 0 };
                assert_eq!(m.rr_intervals.len(), expected_rr, "flags {flags:#04x} len {len}");
                assert_eq!(m.sensor_contact_detected, flags & 0x02 != 0);
                assert_eq!(m.sensor_contact_supported, flags & 0x04 != 0);
                assert_eq!(m.energy_expended_present, flags & 0x08 != 0);
                if flags & 0x08 == 0 {
                    assert_eq!(m.energy_expended, 0);
                } else {
                    assert_eq!(m.energy_expended, 0x5A5A);
                }
                if flags & 0x01 == 0 {
                    assert_eq!(m.heart_rate, 0x5A);
                } else {
                    assert_eq!(m.heart_rate, 0x5A5A);
                }
            }
        }
    }
}

#[test]
fn bytes_past_the_consumed_prefix_do_not_matter() {
    let with_rr = [0x19u8, 0x46, 0x00, 0x64, 0x00, 0x20, 0x03, 0x30, 0x03, 0x77];
    assert_eq!(decode(&with_rr), decode(&with_rr[..9]));

    let without_rr = [0x09u8, 0x46, 0x00, 0x64, 0x00, 0x20, 0x03, 0x30];
    let m = decode(&without_rr).unwrap();
    assert_eq!(Ok(m.clone()), decode(&without_rr[..5]));
    assert!(m.rr_intervals.is_empty());
}

#[test]
fn sensor_contact_bits() {
    let m = decode(&[0x02, 0x50]).unwrap();
    assert!(m.sensor_contact_detected);
    assert!(!m.sensor_contact_supported);
    let m = decode(&[0x04, 0x50]).unwrap();
    assert!(!m.sensor_contact_detected);
    assert!(m.sensor_contact_supported);
    let m = decode(&[0x06, 0x50]).unwrap();
    assert!(m.sensor_contact_detected && m.sensor_contact_supported);
}

#[test]
fn upper_flag_bits_are_ignored() {
    assert_eq!(decode(&[0xE0, 0x46]), decode(&[0x00, 0x46]));
}

#[test]
fn little_endian_fields() {
    let m = decode(&[0x19, 0x34, 0x12, 0xCD, 0xAB, 0xFF, 0xFF, 0x01, 0x00]).unwrap();
    assert_eq!(m.heart_rate, 0x1234);
    assert_eq!(m.energy_expended, 0xABCD);
    assert_eq!(m.rr_intervals, vec![0xFFFF, 0x0001]);
}
