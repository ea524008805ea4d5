//! Bounded, fixed-capacity multi-metric history store with running min/max.
//! All mandatory per-metric buffers are appended to in lock-step per reading,
//! so cross-metric joins by index stay aligned; the optional CO2 buffer grows
//! only when a reading carries a CO2 value.

use vstd::prelude::*;

use crate::climate_data::ClimateData;
use crate::clock::now_millis;
use crate::range::{spec_update_range, update_min_max_range, RunningRange};
use crate::ring::{ring_push, MaxSizedVector};

verus! {

/// Ring capacity: one sample every 5 seconds for 24 hours.
pub const HISTORY_SIZE: usize = 17280;

/// One stored sample: (capture timestamp in milliseconds, metric value).
pub type HistoryPoint = (i64, i64);

/// Fixed-capacity per-metric time series plus running min/max, all sharing
/// one wall-clock timestamp basis.
pub struct History {
    pub time_window_start: i64,
    pub time_window_end: i64,
    pub latest_climate_data: Option<ClimateData>,
    pub flat: MaxSizedVector<ClimateData, HISTORY_SIZE>,
    pub co2_history: MaxSizedVector<HistoryPoint, HISTORY_SIZE>,
    pub eco2_history: MaxSizedVector<HistoryPoint, HISTORY_SIZE>,
    pub temperature_history: MaxSizedVector<HistoryPoint, HISTORY_SIZE>,
    pub temperature_minmax: Option<RunningRange>,
    pub pressure_history: MaxSizedVector<HistoryPoint, HISTORY_SIZE>,
    pub pressure_minmax: Option<RunningRange>,
}

impl History {
    /// Start of the observed time span, milliseconds since the epoch.
    pub open spec fn spec_window_start(&self) -> i64 {
        self.time_window_start
    }

    /// End of the observed time span, milliseconds since the epoch.
    pub open spec fn spec_window_end(&self) -> i64 {
        self.time_window_end
    }

    /// Structural invariant: every buffer is within capacity, and the
    /// mandatory buffers have grown in lock-step, one entry per captured
    /// reading.
    pub open spec fn inv(&self) -> bool {
        &&& self.flat.inv()
        &&& self.co2_history.inv()
        &&& self.eco2_history.inv()
        &&& self.temperature_history.inv()
        &&& self.pressure_history.inv()
        &&& self.temperature_history@.len() == self.flat@.len()
        &&& self.eco2_history@.len() == self.flat@.len()
        &&& self.pressure_history@.len() == self.flat@.len()
    }

    /// Returns the session's observed time span.
    pub fn get_window(&self) -> (r: [i64; 2])
        ensures
            r@ == seq![self.spec_window_start(), self.spec_window_end()],
    {
        [self.time_window_start, self.time_window_end]
    }

    /// An empty store whose time window is the degenerate span [now, now] on
    /// the local wall clock.
    pub fn new() -> (r: History)
        ensures
            r.spec_window_start() == r.spec_window_end(),
            r.latest_climate_data is None,
            r.flat@ == Seq::<ClimateData>::empty(),
            r.co2_history@ == Seq::<HistoryPoint>::empty(),
            r.eco2_history@ == Seq::<HistoryPoint>::empty(),
            r.temperature_history@ == Seq::<HistoryPoint>::empty(),
            r.pressure_history@ == Seq::<HistoryPoint>::empty(),
            r.temperature_minmax is None,
            r.pressure_minmax is None,
            r.inv(),
    {
        let now = now_millis();
        History {
            time_window_start: now,
            time_window_end: now,
            latest_climate_data: None,
            flat: MaxSizedVector::new(),
            co2_history: MaxSizedVector::new(),
            eco2_history: MaxSizedVector::new(),
            temperature_history: MaxSizedVector::new(),
            temperature_minmax: None,
            pressure_history: MaxSizedVector::new(),
            pressure_minmax: None,
        }
    }
}

/// How one captured reading, stamped `now`, takes the store from `pre` to
/// `post`: the window end moves to `now`, the reading and its per-metric
/// points are appended ring-wise in lock-step (CO2 only when present), and
/// the running ranges widen over the new values.
pub open spec fn captured(pre: History, post: History, data: ClimateData, now: i64) -> bool {
    let cap = HISTORY_SIZE as nat;
    &&& post.spec_window_start() == pre.spec_window_start()
    &&& post.spec_window_end() == now
    &&& post.latest_climate_data == Some(data)
    &&& post.flat@ == ring_push(cap, pre.flat@, data)
    &&& post.temperature_history@ == ring_push(cap, pre.temperature_history@, (now, data.temperature))
    &&& post.temperature_minmax == Some(spec_update_range(data.temperature, pre.temperature_minmax))
    &&& post.co2_history@ == match data.co2 {
        Some(c) => ring_push(cap, pre.co2_history@, (now, c)),
        None => pre.co2_history@,
    }
    &&& post.eco2_history@ == ring_push(cap, pre.eco2_history@, (now, data.eco2))
    &&& post.pressure_history@ == ring_push(cap, pre.pressure_history@, (now, data.pressure))
    &&& post.pressure_minmax == Some(spec_update_range(data.pressure, pre.pressure_minmax))
}

impl History {
    /// Appends one reading under an explicit capture timestamp.
    pub fn capture_at(&mut self, climate_data: &ClimateData, now: i64)
        requires
            old(self).inv(),
        ensures
            captured(*old(self), *final(self), *climate_data, now),
            final(self).inv(),
    {
        self.time_window_end = now;
        self.latest_climate_data = Some(*climate_data);

        self.flat.push(*climate_data);
        self.temperature_history.push((now, climate_data.temperature));
        self.temperature_minmax = Some(
            update_min_max_range(climate_data.temperature, &self.temperature_minmax),
        );

        if let Some(co2) = climate_data.co2 {
            self.co2_history.push((now, co2));
        }

        self.eco2_history.push((now, climate_data.eco2));
        self.pressure_history.push((now, climate_data.pressure));
        self.pressure_minmax = Some(
            update_min_max_range(climate_data.pressure, &self.pressure_minmax),
        );
    }

    /// Appends one reading stamped with the local wall clock; the window end
    /// becomes the capture time.
    pub fn capture_measurement(&mut self, climate_data: &ClimateData)
        requires
            old(self).inv(),
        ensures
            exists|now: i64| #[trigger] captured(*old(self), *final(self), *climate_data, now),
            final(self).inv(),
    {
        let now = now_millis();
        self.capture_at(climate_data, now);
    }
}

} // verus!
