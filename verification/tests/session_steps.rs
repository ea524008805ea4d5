use co2nsole::climate_data::{ClimateData, Timestamp};
use co2nsole::config::ProtocolConfig;
use co2nsole::decode::DecodeError;
use co2nsole::history::History;
use co2nsole::session::{
    begin_disconnect, dispatch_reading, handle_command, handle_notification,
    next_disconnect_step, on_connectivity_poll, on_notification, try_find_characteristic,
    BleAction, CapRequirement, CharacteristicInfo, CommandDirective, ConnectivityEvent,
    DisconnectRetry, DisconnectStep, NotificationEvent, SessionError, SubscribeStep,
    DISCONNECT_ATTEMPTS,
};

const NOW: i64 = 1_700_000_000_000;

fn test_config() -> ProtocolConfig {
    ProtocolConfig {
        main_local_name: b"to2".to_vec(),
        main_service: 0x1111,
        stream_char: 0x2222,
        co2_calibration_char: 0x3333,
        temp_calibration_char: 0x4444,
        co2_calibration_payload: vec![0x01],
        window_local_name: b"window".to_vec(),
        window_service: 0x5555,
        window_read_char: 0x6666,
    }
}

#[test]
fn notification_timeout_is_connection_lost_not_a_hang() {
    assert_eq!(
        on_notification(&NotificationEvent::Timeout, NOW),
        SubscribeStep::Failed(SessionError::ConnectionLost)
    );
    assert_eq!(
        handle_notification(&NotificationEvent::Timeout),
        SubscribeStep::Failed(SessionError::ConnectionLost)
    );
}

#[test]
fn notification_stream_end_finishes_cleanly() {
    assert_eq!(on_notification(&NotificationEvent::Ended, NOW), SubscribeStep::Finished);
}

#[test]
fn notification_with_good_payload_dispatches_the_reading() {
    let payload =
        br#"{"temperature":21.5,"eco2":412,"etvoc":125,"pressure":1013.25,"humidity":45.0}"#;
    let step = on_notification(&NotificationEvent::Data(payload.to_vec()), NOW);
    match step {
        SubscribeStep::Dispatch(c) => {
            assert_eq!(c.temperature, 21_500);
            assert_eq!(c.timestamp, Timestamp(NOW));
        }
        other => panic!("expected a dispatch, got {:?}", other),
    }
}

#[test]
fn notification_with_bad_payload_is_skipped_not_fatal() {
    let step = on_notification(&NotificationEvent::Data(b"not json".to_vec()), NOW);
    assert_eq!(step, SubscribeStep::SkipBadPayload(DecodeError::Syntax));
}

#[test]
fn connectivity_poll_steps() {
    assert_eq!(on_connectivity_poll(&ConnectivityEvent::Connected), SubscribeStep::Continue);
    assert_eq!(
        on_connectivity_poll(&ConnectivityEvent::Disconnected),
        SubscribeStep::Failed(SessionError::ConnectionLost)
    );
    assert_eq!(
        on_connectivity_poll(&ConnectivityEvent::Timeout),
        SubscribeStep::Failed(SessionError::ConnectionLost)
    );
}

#[test]
fn already_disconnected_session_issues_no_disconnect_calls() {
    assert_eq!(begin_disconnect(&ConnectivityEvent::Disconnected), None);
}

#[test]
fn connected_session_gets_the_full_retry_budget() {
    assert_eq!(
        begin_disconnect(&ConnectivityEvent::Connected),
        Some(DisconnectRetry { remaining: DISCONNECT_ATTEMPTS })
    );
    assert_eq!(
        begin_disconnect(&ConnectivityEvent::Timeout),
        Some(DisconnectRetry { remaining: DISCONNECT_ATTEMPTS })
    );
}

#[test]
fn disconnect_retry_counts_down_and_gives_up() {
    let st = DisconnectRetry { remaining: DISCONNECT_ATTEMPTS };
    assert_eq!(next_disconnect_step(st, true), DisconnectStep::Done);
    assert_eq!(
        next_disconnect_step(st, false),
        DisconnectStep::RetryAfterDelay(DisconnectRetry { remaining: DISCONNECT_ATTEMPTS - 1 })
    );
    assert_eq!(
        next_disconnect_step(DisconnectRetry { remaining: 1 }, false),
        DisconnectStep::GiveUp
    );
}

#[test]
fn characteristic_resolution_takes_first_match_by_uuid_and_capability() {
    let chars = [
        CharacteristicInfo { uuid: 0xA, readable: true, notifiable: false, writable: false },
        CharacteristicInfo { uuid: 0xB, readable: false, notifiable: false, writable: true },
        CharacteristicInfo { uuid: 0xB, readable: false, notifiable: true, writable: false },
        CharacteristicInfo { uuid: 0xB, readable: true, notifiable: true, writable: false },
    ];
    assert_eq!(try_find_characteristic(&chars, 0xB, CapRequirement::Notify), Ok(2));
    assert_eq!(try_find_characteristic(&chars, 0xA, CapRequirement::Read), Ok(0));
    assert_eq!(
        try_find_characteristic(&chars, 0xA, CapRequirement::Notify),
        Err(SessionError::CharacteristicNotFound)
    );
    assert_eq!(
        try_find_characteristic(&[], 0xA, CapRequirement::Read),
        Err(SessionError::CharacteristicNotFound)
    );
}

#[test]
fn commands_serialize_into_session_directives() {
    let cfg = test_config();
    match handle_command(&BleAction::CalibrateCo2, &cfg) {
        CommandDirective::Write { char_uuid, payload } => {
            assert_eq!(char_uuid, 0x3333);
            assert_eq!(payload, vec![0x01]);
        }
        _ => panic!("CO2 calibration must become a write"),
    }
    assert!(matches!(
        handle_command(&BleAction::CalibrateTemperature(21), &cfg),
        CommandDirective::Ignore
    ));
    assert!(matches!(handle_command(&BleAction::Stop, &cfg), CommandDirective::StopSession));
}

#[test]
fn dispatch_reading_captures_and_evaluates() {
    let mut h = History::new();
    let c = ClimateData {
        co2: Some(650),
        temperature: 21_000,
        eco2: 400,
        etvoc: 100,
        pressure: 1_013_000,
        humidity: 50_000,
        light: None,
        timestamp: Timestamp(NOW),
    };
    let actions = dispatch_reading(&mut h, &c, &[]);
    assert!(actions.is_empty());
    assert_eq!(h.flat.len(), 1);
    assert_eq!(h.latest_climate_data, Some(c));
    assert_eq!(h.co2_history.len(), 1);
}
