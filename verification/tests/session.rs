use pulse_osc::measurement::DecodeError;
use pulse_osc::osc::{BridgeError, OscTime, OscValue};
use pulse_osc::session::{DeviceSession, SessionAction, SessionEvent, SessionState};

fn notification(payload: &[u8], unix_millis: u128) -> SessionEvent {
    SessionEvent::Notification { payload: payload.to_vec(), unix_millis }
}

fn streaming() -> DeviceSession {
    let mut session = DeviceSession::new();
    assert_eq!(session.step(&SessionEvent::Subscribed), SessionAction::Idle);
    session
}

fn toggle_of(action: &SessionAction) -> bool {
    match action {
        SessionAction::Deliver { bundle: Ok(bundle), .. } => match bundle.content[6].value {
            OscValue::Bool(toggle) => toggle,
            other => panic!("not a boolean: {other:?}"),
        },
        other => panic!("nothing delivered: {other:?}"),
    }
}

#[test]
fn session_starts_subscribing() {
    assert_eq!(DeviceSession::new().state(), SessionState::Subscribing);
}

#[test]
fn accepted_subscription_starts_streaming() {
    let session = streaming();
    assert_eq!(session.state(), SessionState::Streaming);
}

#[test]
fn refused_subscription_closes_the_session() {
    let mut session = DeviceSession::new();
    assert_eq!(session.step(&SessionEvent::SubscribeFailed), SessionAction::ReportSubscribeFailure);
    assert_eq!(session.state(), SessionState::Closed);
}

#[test]
fn notification_is_decoded_and_delivered() {
    let mut session = streaming();
    let action =
        session.step(&notification(&[0x19, 0x46, 0x00, 0x64, 0x00, 0x20, 0x03, 0x30, 0x03], 500));
    match action {
        SessionAction::Deliver { measurement, bundle } => {
            assert_eq!(measurement.heart_rate, 70);
            assert_eq!(measurement.energy_expended, 100);
            assert_eq!(measurement.rr_intervals, vec![800, 816]);
            let bundle = bundle.unwrap();
            assert_eq!(bundle.timetag, OscTime { seconds: 2_208_988_800, fractional: 0x8000_0000 });
            assert_eq!(bundle.content.len(), 9);
            assert_eq!(bundle.content[0].addr, "/avatar/parameters/HR");
            assert_eq!(bundle.content[0].value, OscValue::Int(70));
            assert_eq!(bundle.content[6].value, OscValue::Bool(true));
            assert_eq!(bundle.content[8].addr, "/avatar/parameters/RRInterval");
            assert_eq!(bundle.content[8].value, OscValue::Int(808));
        }
        other => panic!("nothing delivered: {other:?}"),
    }
    assert_eq!(session.state(), SessionState::Streaming);
}

#[test]
fn malformed_notification_is_skipped_and_the_stream_goes_on() {
    let mut session = streaming();
    assert_eq!(
        session.step(&notification(&[0x01, 0x46], 0)),
        SessionAction::Skip(DecodeError::MalformedPayload)
    );
    assert_eq!(session.step(&notification(&[], 0)), SessionAction::Skip(DecodeError::MalformedPayload));
    assert_eq!(session.state(), SessionState::Streaming);
    assert!(toggle_of(&session.step(&notification(&[0x00, 0x46], 0))));
}

#[test]
fn measurement_is_delivered_even_without_a_bundle() {
    let mut session = streaming();
    match session.step(&notification(&[0x00, 0x46], u128::MAX)) {
        SessionAction::Deliver { measurement, bundle } => {
            assert_eq!(measurement.heart_rate, 70);
            assert_eq!(bundle, Err(BridgeError::ClockOverflow));
        }
        other => panic!("nothing delivered: {other:?}"),
    }
    assert_eq!(session.state(), SessionState::Streaming);
    assert!(!toggle_of(&session.step(&notification(&[0x00, 0x46], 0))));
}

#[test]
fn toggle_alternates_over_the_stream() {
    let mut session = streaming();
    let mut expected = true;
    for beat in 0..5u8 {
        let action = session.step(&notification(&[0x00, 60 + beat], 1_000));
        assert_eq!(toggle_of(&action), expected);
        expected = !expected;
    }
}

#[test]
fn notification_before_the_subscription_is_answered_is_ignored() {
    let mut session = DeviceSession::new();
    assert_eq!(session.step(&notification(&[0x00, 0x46], 0)), SessionAction::Idle);
    assert_eq!(session.state(), SessionState::Subscribing);
    session.step(&SessionEvent::Subscribed);
    assert!(toggle_of(&session.step(&notification(&[0x00, 0x46], 0))));
}

#[test]
fn end_of_stream_closes_the_session() {
    let mut session = streaming();
    assert_eq!(session.step(&SessionEvent::StreamEnded), SessionAction::Idle);
    assert_eq!(session.state(), SessionState::Closed);

    let mut session = DeviceSession::new();
    assert_eq!(session.step(&SessionEvent::StreamEnded), SessionAction::Idle);
    assert_eq!(session.state(), SessionState::Closed);
}

#[test]
fn closed_session_processes_nothing() {
    let mut session = streaming();
    session.step(&SessionEvent::StreamEnded);
    for event in [
        SessionEvent::Subscribed,
        SessionEvent::SubscribeFailed,
        notification(&[0x00, 0x46], 0),
        notification(&[], 0),
        SessionEvent::StreamEnded,
    ] {
        assert_eq!(session.step(&event), SessionAction::Idle);
        assert_eq!(session.state(), SessionState::Closed);
    }
}

#[test]
fn late_subscription_answers_are_ignored_while_streaming() {
    let mut session = streaming();
    assert_eq!(session.step(&SessionEvent::SubscribeFailed), SessionAction::Idle);
    assert_eq!(session.step(&SessionEvent::Subscribed), SessionAction::Idle);
    assert_eq!(session.state(), SessionState::Streaming);
}
