use co2nsole::advice::{select_advice, AdviceKind};
use co2nsole::climate_data::{ClimateData, MetricKind, Timestamp};
use co2nsole::discovery::{accept_candidate, contains_sub, ensure_adapter, screen_candidate};
use co2nsole::reaction::{window_reaction_rule, ReactionAction, RulePredicate};
use co2nsole::session::{BleAction, SessionError};
use co2nsole::trend::Trend;
use co2nsole::ui::{
    apply_ui_action, handle_dashboard_key_event, Action, CalibrationPopup, KeyPress, Tab, View,
};
use co2nsole::window::{should_notify_blinds, should_retry_window_discovery, WindowState};

#[test]
fn substring_search_finds_runs() {
    assert!(contains_sub(b"to2-sensor-42", b"to2"));
    assert!(contains_sub(b"xto2", b"to2"));
    assert!(contains_sub(b"abc", b""));
    assert!(contains_sub(b"", b""));
    assert!(!contains_sub(b"", b"a"));
    assert!(!contains_sub(b"to-2", b"to2"));
    assert!(!contains_sub(b"t", b"to2"));
}

#[test]
fn candidate_screening_needs_a_matching_name() {
    assert!(screen_candidate(&Some(b"living-room to2".to_vec()), b"to2"));
    assert!(!screen_candidate(&Some(b"other-device".to_vec()), b"to2"));
    assert!(!screen_candidate(&None, b"to2"));
}

#[test]
fn candidate_acceptance_needs_the_target_service() {
    assert!(accept_candidate(&[0x1, 0x2, 0x3], 0x2));
    assert!(!accept_candidate(&[0x1, 0x3], 0x2));
    assert!(!accept_candidate(&[], 0x2));
}

#[test]
fn missing_adapter_is_fatal() {
    assert_eq!(ensure_adapter(0), Err(SessionError::AdapterUnavailable));
    assert_eq!(ensure_adapter(1), Ok(()));
}

#[test]
fn window_rule_is_the_statically_built_record() {
    let r = window_reaction_rule();
    assert_eq!(r.metric, MetricKind::Light);
    assert_eq!(r.trend, Trend::Up);
    assert_eq!(r.window_seconds, 600);
    assert_eq!(
        r.only_if,
        RulePredicate::MetricAboveDuringHours {
            metric: MetricKind::Light,
            threshold: 800_000,
            after_hour: 8,
            before_hour: 20,
        }
    );
    assert_eq!(
        r.force_run,
        RulePredicate::MetricAbove { metric: MetricKind::Light, threshold: 1_200_000 }
    );
    assert_eq!(r.action, ReactionAction::CheckWindowSensor);
}

#[test]
fn window_discovery_budget_is_thirty_rounds() {
    assert!(should_retry_window_discovery(0));
    assert!(should_retry_window_discovery(29));
    assert!(!should_retry_window_discovery(30));
}

#[test]
fn blinds_notification_follows_the_window_state() {
    assert!(should_notify_blinds(&WindowState { is_closed: true }));
    assert!(!should_notify_blinds(&WindowState { is_closed: false }));
}

#[test]
fn dashboard_keys_map_to_buttons() {
    assert_eq!(
        handle_dashboard_key_event(&KeyPress::Char('c')),
        Some(Action::OpenCalibrateCo2Popup)
    );
    assert_eq!(handle_dashboard_key_event(&KeyPress::Char('r')), Some(Action::Reconnect));
    assert_eq!(handle_dashboard_key_event(&KeyPress::Char('x')), Some(Action::ClearHistory));
    assert_eq!(handle_dashboard_key_event(&KeyPress::Char('q')), Some(Action::Exit));
    assert_eq!(handle_dashboard_key_event(&KeyPress::Char('z')), None);
    assert_eq!(handle_dashboard_key_event(&KeyPress::Enter), None);
    assert_eq!(handle_dashboard_key_event(&KeyPress::Esc), None);
}

#[test]
fn popup_keys_switch_tabs_and_calibrate() {
    let popup = CalibrationPopup::co2();
    assert_eq!(popup.handle_key(&KeyPress::Char('t')), Some(Action::OpenCalibrateTemperaturePopup));
    assert_eq!(popup.handle_key(&KeyPress::Char('c')), Some(Action::OpenCalibrateCo2Popup));
    assert_eq!(popup.handle_key(&KeyPress::Esc), Some(Action::OpenDashboard));
    assert_eq!(popup.handle_key(&KeyPress::Enter), Some(Action::CalibrateCo2));
    assert_eq!(popup.handle_key(&KeyPress::Char('z')), None);
    assert_eq!(popup.handle_key(&KeyPress::Other), None);

    let temp_popup = CalibrationPopup::temperature();
    assert_eq!(temp_popup.handle_key(&KeyPress::Esc), Some(Action::OpenDashboard));
}

#[test]
fn tab_select_characters() {
    assert_eq!(Tab::Co2.get_char(), 'c');
    assert_eq!(Tab::Temperature { input: String::new() }.get_char(), 't');
}

#[test]
fn applying_actions_updates_view_queue_and_exit() {
    let u = apply_ui_action(&Action::CalibrateCo2);
    assert!(matches!(u.next_view, Some(View::Dashboard)));
    assert_eq!(u.send, Some(BleAction::CalibrateCo2));
    assert!(!u.exit);

    let u = apply_ui_action(&Action::Reconnect);
    assert!(u.next_view.is_none());
    assert_eq!(u.send, Some(BleAction::Stop));
    assert!(!u.exit);

    let u = apply_ui_action(&Action::Exit);
    assert!(u.exit);

    let u = apply_ui_action(&Action::OpenCalibrateCo2Popup);
    assert!(matches!(u.next_view, Some(View::Calibrate(_))));
    assert_eq!(u.send, None);

    let u = apply_ui_action(&Action::OpenDashboard);
    assert!(matches!(u.next_view, Some(View::Dashboard)));
}

fn calm_reading() -> ClimateData {
    ClimateData {
        co2: Some(900),
        temperature: 22_000,
        eco2: 500,
        etvoc: 200,
        pressure: 1_010_000,
        humidity: 50_000,
        light: Some(400_000),
        timestamp: Timestamp(0),
    }
}

#[test]
fn calm_reading_earns_no_advice() {
    assert!(select_advice(&calm_reading()).is_empty());
}

#[test]
fn each_threshold_earns_its_advice() {
    let mut c = calm_reading();
    c.co2 = Some(1_200);
    c.temperature = 26_000;
    c.humidity = 75_000;
    c.eco2 = 1_500;
    c.etvoc = 600;
    c.pressure = 990_000;
    c.light = Some(50_000);
    assert_eq!(
        select_advice(&c),
        vec![
            AdviceKind::Co2High,
            AdviceKind::TooWarm,
            AdviceKind::HumidityHigh,
            AdviceKind::Eco2High,
            AdviceKind::EtvocHigh,
            AdviceKind::PressureLow,
            AdviceKind::Dim,
        ]
    );

    let mut c = calm_reading();
    c.co2 = Some(700);
    c.temperature = 19_000;
    c.humidity = 25_000;
    c.pressure = 1_025_000;
    c.light = Some(900_000);
    assert_eq!(
        select_advice(&c),
        vec![
            AdviceKind::Co2Low,
            AdviceKind::TooCold,
            AdviceKind::HumidityLow,
            AdviceKind::PressureHigh,
            AdviceKind::Bright,
        ]
    );

    let mut c = calm_reading();
    c.co2 = None;
    c.light = None;
    assert!(select_advice(&c).is_empty());
}
