use co2nsole::climate_data::{ClimateData, Timestamp};
use co2nsole::history::History;
use co2nsole::range::{update_min_max_range, RunningRange};

fn fold_range(values: &[i64]) -> Option<RunningRange> {
    let mut r: Option<RunningRange> = None;
    for v in values {
        r = Some(update_min_max_range(*v, &r));
    }
    r
}

fn reading(temperature: i64, co2: Option<i64>, pressure: i64) -> ClimateData {
    ClimateData {
        co2,
        temperature,
        eco2: 400,
        etvoc: 100,
        pressure,
        humidity: 50000,
        light: None,
        timestamp: Timestamp(0),
    }
}

#[test]
fn running_range_is_min_max_of_values() {
    let r = fold_range(&[5, -3, 12, 0]).unwrap();
    assert_eq!(r.start, -3);
    assert_eq!(r.end, 12);
}

#[test]
fn running_range_does_not_depend_on_order() {
    let a = fold_range(&[5, -3, 12, 0]);
    let b = fold_range(&[12, 0, 5, -3]);
    let c = fold_range(&[-3, 12, 0, 5]);
    assert_eq!(a, b);
    assert_eq!(a, c);
}

#[test]
fn running_range_first_value_is_degenerate() {
    let r = update_min_max_range(7, &None);
    assert_eq!(r.start, 7);
    assert_eq!(r.end, 7);
    let widened = update_min_max_range(3, &Some(r));
    assert_eq!(widened.start, 3);
    assert_eq!(widened.end, 7);
}

#[test]
fn history_starts_empty_with_degenerate_window() {
    let h = History::new();
    let w = h.get_window();
    assert_eq!(w[0], w[1]);
    assert!(h.latest_climate_data.is_none());
    assert_eq!(h.flat.len(), 0);
    assert_eq!(h.temperature_history.len(), 0);
    assert!(h.temperature_minmax.is_none());
}

#[test]
fn capture_appends_in_lockstep_and_tracks_ranges() {
    let mut h = History::new();
    let start = h.get_window()[0];

    h.capture_at(&reading(21500, Some(700), 1013250), 1000);
    h.capture_at(&reading(20000, None, 1014000), 2000);

    let w = h.get_window();
    assert_eq!(w[0], start);
    assert_eq!(w[1], 2000);

    assert_eq!(h.flat.len(), 2);
    assert_eq!(h.temperature_history.as_slice(), &[(1000, 21500), (2000, 20000)]);
    assert_eq!(h.eco2_history.len(), 2);
    assert_eq!(h.pressure_history.as_slice(), &[(1000, 1013250), (2000, 1014000)]);
    // the optional CO2 buffer only grows when the reading carries a value
    assert_eq!(h.co2_history.as_slice(), &[(1000, 700)]);

    let t = h.temperature_minmax.unwrap();
    assert_eq!((t.start, t.end), (20000, 21500));
    let p = h.pressure_minmax.unwrap();
    assert_eq!((p.start, p.end), (1013250, 1014000));

    assert_eq!(h.latest_climate_data.unwrap().temperature, 20000);
}

#[test]
fn history_evicts_oldest_reading_at_full_capacity() {
    let mut h = History::new();
    let total = co2nsole::HISTORY_SIZE + 5;
    for i in 0..total {
        h.capture_at(&reading(20_000 + i as i64, None, 1_013_000), i as i64);
    }
    assert_eq!(h.flat.len(), co2nsole::HISTORY_SIZE);
    assert_eq!(h.temperature_history.len(), co2nsole::HISTORY_SIZE);
    // the five oldest points were evicted, insertion order is kept
    assert_eq!(h.temperature_history.get(0), Some(&(5, 20_005)));
    let last = co2nsole::HISTORY_SIZE - 1;
    assert_eq!(h.temperature_history.get(last), Some(&(total as i64 - 1, 20_000 + total as i64 - 1)));
    // the running range still covers every value ever seen
    let t = h.temperature_minmax.unwrap();
    assert_eq!((t.start, t.end), (20_000, 20_000 + total as i64 - 1));
}

#[test]
fn timestamp_exposes_raw_milliseconds() {
    assert_eq!(Timestamp(1234).as_millis(), 1234);
}
