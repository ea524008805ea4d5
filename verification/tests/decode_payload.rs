use co2nsole::climate_data::{ClimateData, Timestamp};
use co2nsole::decode::{decode_climate, DecodeError, FieldKey, FromBleData};
use co2nsole::window::WindowState;

const NOW: i64 = 1_700_000_000_000;

#[test]
fn decode_full_payload() {
    let payload = br#"{"co2":700,"temperature":21.5,"eco2":412,"etvoc":125,"pressure":1013.25,"humidity":45.0,"light":350.5,"timestamp":1715000000000}"#;
    let c = decode_climate(payload, NOW).unwrap();
    assert_eq!(c.co2, Some(700));
    assert_eq!(c.temperature, 21_500);
    assert_eq!(c.eco2, 412);
    assert_eq!(c.etvoc, 125);
    assert_eq!(c.pressure, 1_013_250);
    assert_eq!(c.humidity, 45_000);
    assert_eq!(c.light, Some(350_500));
    assert_eq!(c.timestamp, Timestamp(1_715_000_000_000));
}

#[test]
fn decode_missing_temperature_fails() {
    let payload = br#"{"co2":700,"eco2":412,"etvoc":125,"pressure":1013.25,"humidity":45.0}"#;
    assert_eq!(
        decode_climate(payload, NOW),
        Err(DecodeError::MissingField(FieldKey::Temperature))
    );
}

#[test]
fn decode_omitted_co2_succeeds_as_absent() {
    let payload = br#"{"temperature":21.5,"eco2":412,"etvoc":125,"pressure":1013.25,"humidity":45.0}"#;
    let c = decode_climate(payload, NOW).unwrap();
    assert_eq!(c.co2, None);
    assert_eq!(c.light, None);
    assert_eq!(c.temperature, 21_500);
}

#[test]
fn decode_null_co2_and_light_read_as_absent() {
    let payload = br#"{"temperature":20.0,"co2":null,"light":null,"eco2":1,"etvoc":2,"pressure":990.0,"humidity":30.5}"#;
    let c = decode_climate(payload, NOW).unwrap();
    assert_eq!(c.co2, None);
    assert_eq!(c.light, None);
    assert_eq!(c.humidity, 30_500);
}

#[test]
fn decode_null_required_field_is_an_error() {
    let payload = br#"{"temperature":null,"eco2":1,"etvoc":2,"pressure":990.0,"humidity":30.0}"#;
    assert_eq!(decode_climate(payload, NOW), Err(DecodeError::Syntax));
}

#[test]
fn decode_defaults_timestamp_to_decode_time() {
    let payload = br#"{"temperature":21.0,"eco2":412,"etvoc":125,"pressure":1013.0,"humidity":45.0}"#;
    let c = decode_climate(payload, NOW).unwrap();
    assert_eq!(c.timestamp, Timestamp(NOW));
}

#[test]
fn decode_truncates_extra_fraction_digits() {
    let payload = br#"{"temperature":21.56789,"eco2":0,"etvoc":0,"pressure":1000.9999,"humidity":0.1}"#;
    let c = decode_climate(payload, NOW).unwrap();
    assert_eq!(c.temperature, 21_567);
    assert_eq!(c.pressure, 1_000_999);
    assert_eq!(c.humidity, 100);
}

#[test]
fn decode_negative_values() {
    let payload = br#"{"temperature":-3.5,"eco2":-10,"etvoc":0,"pressure":980.0,"humidity":20.0}"#;
    let c = decode_climate(payload, NOW).unwrap();
    assert_eq!(c.temperature, -3_500);
    assert_eq!(c.eco2, -10);
}

#[test]
fn decode_ignores_unknown_keys() {
    let payload = br#"{"temperature":21.0,"battery":97,"eco2":1,"etvoc":2,"pressure":1000.0,"humidity":40.0,"rssi":null}"#;
    let c = decode_climate(payload, NOW).unwrap();
    assert_eq!(c.temperature, 21_000);
}

#[test]
fn decode_tolerates_whitespace() {
    let payload = b" \t{ \"temperature\" : 21.0 ,\n \"eco2\": 1, \"etvoc\": 2, \"pressure\": 1000.0, \"humidity\": 40.0 }\r\n";
    let c = decode_climate(payload, NOW).unwrap();
    assert_eq!(c.temperature, 21_000);
}

#[test]
fn decode_rejects_malformed_payloads() {
    for payload in [
        &b""[..],
        &b"{"[..],
        &b"[]"[..],
        &br#"{"temperature":21.0"#[..],
        &br#"{"temperature":"warm","eco2":1,"etvoc":2,"pressure":1000.0,"humidity":40.0}"#[..],
        &br#"{"temperature":true,"eco2":1,"etvoc":2,"pressure":1000.0,"humidity":40.0}"#[..],
        &br#"{"temperature":21.,"eco2":1,"etvoc":2,"pressure":1000.0,"humidity":40.0}"#[..],
        &br#"{"temperature":1e3,"eco2":1,"etvoc":2,"pressure":1000.0,"humidity":40.0}"#[..],
        &br#"{"temperature":21.0,}"#[..],
        &br#"{"temperature":21.0} trailing"#[..],
    ] {
        assert_eq!(decode_climate(payload, NOW), Err(DecodeError::Syntax));
    }
}

#[test]
fn decode_rejects_integer_overflow() {
    let payload = br#"{"temperature":21.0,"eco2":1,"etvoc":2,"pressure":99999999999999999999.0,"humidity":40.0}"#;
    assert_eq!(decode_climate(payload, NOW), Err(DecodeError::Syntax));
}

#[test]
fn decode_enforces_integer_ranges() {
    let eco2_big = br#"{"temperature":21.0,"eco2":40000,"etvoc":2,"pressure":1000.0,"humidity":40.0}"#;
    assert_eq!(decode_climate(eco2_big, NOW), Err(DecodeError::OutOfRange(FieldKey::Eco2)));

    let eco2_frac = br#"{"temperature":21.0,"eco2":10.5,"etvoc":2,"pressure":1000.0,"humidity":40.0}"#;
    assert_eq!(decode_climate(eco2_frac, NOW), Err(DecodeError::OutOfRange(FieldKey::Eco2)));

    let etvoc_big = br#"{"temperature":21.0,"eco2":1,"etvoc":32768,"pressure":1000.0,"humidity":40.0}"#;
    assert_eq!(decode_climate(etvoc_big, NOW), Err(DecodeError::OutOfRange(FieldKey::Etvoc)));

    let co2_frac = br#"{"temperature":21.0,"co2":700.5,"eco2":1,"etvoc":2,"pressure":1000.0,"humidity":40.0}"#;
    assert_eq!(decode_climate(co2_frac, NOW), Err(DecodeError::OutOfRange(FieldKey::Co2)));

    let ts_neg = br#"{"temperature":21.0,"eco2":1,"etvoc":2,"pressure":1000.0,"humidity":40.0,"timestamp":-5}"#;
    assert_eq!(
        decode_climate(ts_neg, NOW),
        Err(DecodeError::OutOfRange(FieldKey::TimestampMs))
    );
}

#[test]
fn decode_int16_boundaries_pass() {
    let payload = br#"{"temperature":0,"eco2":-32768,"etvoc":32767,"pressure":0,"humidity":0}"#;
    let c = decode_climate(payload, NOW).unwrap();
    assert_eq!(c.eco2, -32768);
    assert_eq!(c.etvoc, 32767);
}

#[test]
fn decode_duplicate_key_last_wins() {
    let payload = br#"{"temperature":20.0,"temperature":22.0,"eco2":1,"etvoc":2,"pressure":1000.0,"humidity":40.0}"#;
    let c = decode_climate(payload, NOW).unwrap();
    assert_eq!(c.temperature, 22_000);
}

#[test]
fn decode_empty_object_reports_missing_temperature() {
    assert_eq!(
        decode_climate(b"{}", NOW),
        Err(DecodeError::MissingField(FieldKey::Temperature))
    );
}

#[test]
fn window_state_decodes_first_byte() {
    assert_eq!(WindowState::from_bytes(&[1], NOW), Ok(WindowState { is_closed: true }));
    assert_eq!(WindowState::from_bytes(&[0], NOW), Ok(WindowState { is_closed: false }));
    assert_eq!(WindowState::from_bytes(&[2, 1], NOW), Ok(WindowState { is_closed: false }));
    assert_eq!(WindowState::from_bytes(&[], NOW), Err(DecodeError::Syntax));
}

#[test]
fn climate_data_from_bytes_matches_decode() {
    let payload = br#"{"temperature":21.5,"eco2":412,"etvoc":125,"pressure":1013.25,"humidity":45.0}"#;
    let a = ClimateData::from_bytes(payload, NOW).unwrap();
    let b = decode_climate(payload, NOW).unwrap();
    assert_eq!(a, b);
}
