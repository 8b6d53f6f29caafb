use pulse_osc::measurement::HeartRateMeasurement;
use pulse_osc::osc::{
    average_rr_interval, get_timetag, BridgeError, OscBundle, OscTime, OscValue, VRCOSCClient,
};

fn measurement(heart_rate: u16, rr_intervals: Vec<u16>) -> HeartRateMeasurement {
    HeartRateMeasurement {
        heart_rate,
        sensor_contact_detected: false,
        sensor_contact_supported: false,
        energy_expended_present: false,
        energy_expended: 0,
        rr_intervals,
    }
}

fn value_at(bundle: &OscBundle, addr: &str) -> OscValue {
    let found: Vec<&pulse_osc::osc::OscMessage> =
        bundle.content.iter().filter(|m| m.addr == addr).collect();
    assert_eq!(found.len(), 1, "{addr}");
    found[0].value
}

fn as_real(value: OscValue) -> f32 {
    match value {
        OscValue::Ratio { numerator, denominator } => numerator as f32 / denominator as f32,
        other => panic!("not a ratio: {other:?}"),
    }
}

#[test]
fn average_of_measured_rr_intervals_is_truncated_mean() {
    assert_eq!(average_rr_interval(&measurement(70, vec![800, 816])), 808);
    assert_eq!(average_rr_interval(&measurement(70, vec![800, 801])), 800);
    assert_eq!(average_rr_interval(&measurement(70, vec![1, 2, 2])), 1);
    assert_eq!(average_rr_interval(&measurement(0, vec![750])), 750);
}

#[test]
fn average_without_rr_intervals_is_estimated_from_heart_rate() {
    assert_eq!(average_rr_interval(&measurement(60, vec![])), 1000);
    assert_eq!(average_rr_interval(&measurement(70, vec![])), 857);
    assert_eq!(average_rr_interval(&measurement(7, vec![])), 8571);
    assert_eq!(average_rr_interval(&measurement(1, vec![])), 60000);
    assert_eq!(average_rr_interval(&measurement(65535, vec![])), 0);
}

#[test]
fn average_at_heart_rate_zero_saturates() {
    assert_eq!(average_rr_interval(&measurement(0, vec![])), i32::MAX);
}

#[test]
fn average_does_not_wrap_on_large_sums() {
    assert_eq!(average_rr_interval(&measurement(70, vec![65535; 40])), 65535);
    assert_eq!(average_rr_interval(&measurement(70, vec![65535, 65535, 0])), 43690);
}

#[test]
fn timetag_counts_from_1900() {
    assert_eq!(get_timetag(0), Ok(OscTime { seconds: 2_208_988_800, fractional: 0 }));
    assert_eq!(get_timetag(1_000), Ok(OscTime { seconds: 2_208_988_801, fractional: 0 }));
    assert_eq!(
        get_timetag(1_700_000_000_123),
        Ok(OscTime { seconds: 3_908_988_800, fractional: 528_280_977 })
    );
}

#[test]
fn timetag_fraction_is_scaled_to_32_bits() {
    assert_eq!(get_timetag(500).unwrap().fractional, 0x8000_0000);
    assert_eq!(get_timetag(250).unwrap().fractional, 0x4000_0000);
    assert_eq!(get_timetag(1).unwrap().fractional, 4_294_967);
    assert_eq!(get_timetag(999).unwrap().fractional, 4_290_672_328);
}

#[test]
fn timetag_overflows_after_the_last_32_bit_second() {
    let last = 2_085_978_495_999u128;
    assert_eq!(get_timetag(last).unwrap().seconds, u32::MAX);
    assert_eq!(get_timetag(last + 1), Err(BridgeError::ClockOverflow));
    assert_eq!(get_timetag(u128::MAX), Err(BridgeError::ClockOverflow));
}

#[test]
fn bundle_holds_nine_messages_in_order() {
    let mut client = VRCOSCClient::new();
    let bundle = client.send_heartrate(&measurement(172, vec![800, 816]), 1_500).unwrap();
    assert_eq!(bundle.timetag, OscTime { seconds: 2_208_988_801, fractional: 0x8000_0000 });
    let expected = [
        ("/avatar/parameters/HR", OscValue::Int(172)),
        ("/avatar/parameters/onesHR", OscValue::Int(2)),
        ("/avatar/parameters/tensHR", OscValue::Int(7)),
        ("/avatar/parameters/hundredsHR", OscValue::Int(1)),
        ("/avatar/parameters/floatHR", OscValue::Ratio { numerator: 89, denominator: 255 }),
        ("/avatar/parameters/isHRBeat", OscValue::Bool(true)),
        ("/avatar/parameters/HeartBeatToggle", OscValue::Bool(true)),
        ("/avatar/parameters/isHRConnected", OscValue::Bool(true)),
        ("/avatar/parameters/RRInterval", OscValue::Int(808)),
    ];
    assert_eq!(bundle.content.len(), expected.len());
    for (message, (addr, value)) in bundle.content.iter().zip(expected.iter()) {
        assert_eq!(message.addr, *addr);
        assert_eq!(message.value, *value);
    }
}

#[test]
fn digits_of_a_large_heart_rate() {
    let mut client = VRCOSCClient::new();
    let bundle = client.send_heartrate(&measurement(65535, vec![]), 0).unwrap();
    assert_eq!(value_at(&bundle, "/avatar/parameters/HR"), OscValue::Int(65535));
    assert_eq!(value_at(&bundle, "/avatar/parameters/onesHR"), OscValue::Int(5));
    assert_eq!(value_at(&bundle, "/avatar/parameters/tensHR"), OscValue::Int(3));
    assert_eq!(value_at(&bundle, "/avatar/parameters/hundredsHR"), OscValue::Int(655));
    assert_eq!(value_at(&bundle, "/avatar/parameters/RRInterval"), OscValue::Int(0));
}

#[test]
fn float_hr_maps_linearly_onto_the_unit_range() {
    let mut client = VRCOSCClient::new();
    let at = |client: &mut VRCOSCClient, hr: u16| {
        let bundle = client.send_heartrate(&measurement(hr, vec![]), 0).unwrap();
        value_at(&bundle, "/avatar/parameters/floatHR")
    };
    assert_eq!(at(&mut client, 127), OscValue::Ratio { numerator: -1, denominator: 255 });
    assert!((as_real(at(&mut client, 127)) - (-0.004)).abs() < 0.0005);
    assert_eq!(as_real(at(&mut client, 0)), -1.0);
    assert_eq!(as_real(at(&mut client, 255)), 1.0);
}

#[test]
fn float_hr_is_not_clamped_above_full_scale() {
    let mut client = VRCOSCClient::new();
    let bundle = client.send_heartrate(&measurement(510, vec![]), 0).unwrap();
    let value = value_at(&bundle, "/avatar/parameters/floatHR");
    assert_eq!(value, OscValue::Ratio { numerator: 765, denominator: 255 });
    assert_eq!(as_real(value), 3.0);
}

#[test]
fn heartbeat_toggle_alternates_starting_with_true() {
    let mut client = VRCOSCClient::new();
    assert!(!client.hr_flip_flop());
    let m = measurement(70, vec![]);
    let mut expected = true;
    for _ in 0..6 {
        let bundle = client.send_heartrate(&m, 0).unwrap();
        assert_eq!(
            value_at(&bundle, "/avatar/parameters/HeartBeatToggle"),
            OscValue::Bool(expected)
        );
        assert_eq!(client.hr_flip_flop(), expected);
        expected = !expected;
    }
}

#[test]
fn clock_overflow_fails_the_send_and_still_flips_the_toggle() {
    let mut client = VRCOSCClient::new();
    let m = measurement(70, vec![]);
    assert_eq!(client.send_heartrate(&m, u128::MAX), Err(BridgeError::ClockOverflow));
    assert!(client.hr_flip_flop());
    let bundle = client.send_heartrate(&m, 0).unwrap();
    assert_eq!(value_at(&bundle, "/avatar/parameters/HeartBeatToggle"), OscValue::Bool(false));
}

#[test]
fn bundle_encodes_as_an_osc_datagram() {
    let mut client = VRCOSCClient::new();
    let bundle = client.send_heartrate(&measurement(70, vec![800, 816]), 500).unwrap();
    let content = bundle
        .content
        .iter()
        .map(|m| {
            rosc::OscPacket::Message(rosc::OscMessage {
                addr: m.addr.clone(),
                args: vec![match m.value {
                    OscValue::Int(v) => rosc::OscType::Int(v),
                    OscValue::Bool(v) => rosc::OscType::Bool(v),
                    OscValue::Ratio { .. } => rosc::OscType::Float(as_real(m.value)),
                }],
            })
        })
        .collect();
    let packet = rosc::OscPacket::Bundle(rosc::OscBundle {
        timetag: rosc::OscTime {
            seconds: bundle.timetag.seconds,
            fractional: bundle.timetag.fractional,
        },
        content,
    });
    let bytes = rosc::encoder::encode(&packet).unwrap();
    assert_eq!(&bytes[..8], b"#bundle\0");
    assert_eq!(&bytes[8..16], &[0x83, 0xAA, 0x7E, 0x80, 0x80, 0x00, 0x00, 0x00]);
    // First element: "/avatar/parameters/HR" (21 bytes, padded to 24), ",i" padded, 70.
    assert_eq!(&bytes[16..20], &[0, 0, 0, 32]);
    assert_eq!(&bytes[20..41], b"/avatar/parameters/HR");
    assert_eq!(&bytes[44..48], b",i\0\0");
    assert_eq!(&bytes[48..52], &[0, 0, 0, 70]);
    assert_eq!(rosc::decoder::decode_udp(&bytes).unwrap().1, packet);
}
