//! One decoded telemetry snapshot. Fractional quantities are carried as
//! fixed-point integers in thousandths of their unit (milli-degrees Celsius,
//! milli-hectopascals, milli-percent relative humidity, milli-lux), so that
//! every comparison and trend computation is exact integer arithmetic.
//! Timestamps are milliseconds since the Unix epoch.

use vstd::prelude::*;

verus! {

/// Milliseconds since the Unix epoch.
#[derive(Debug, Clone, Copy, PartialEq, Eq, Structural)]
pub struct Timestamp(pub i64);

impl Timestamp {
    /// The raw millisecond count.
    pub fn as_millis(&self) -> (r: i64)
        ensures
            r == self.0,
    {
        self.0
    }
}

/// An immutable decoded reading. `co2` is absent on devices lacking a CO2
/// cell and `light` on those without a light sensor.
#[derive(Debug, Clone, Copy, PartialEq, Eq, Structural)]
pub struct ClimateData {
    /// CO2 concentration, ppm.
    pub co2: Option<i64>,
    /// Temperature, milli-degrees Celsius.
    pub temperature: i64,
    /// Equivalent-CO2 index, ppm.
    pub eco2: i64,
    /// Total-volatile-organics index, ppb.
    pub etvoc: i64,
    /// Atmospheric pressure, milli-hectopascals.
    pub pressure: i64,
    /// Relative humidity, milli-percent.
    pub humidity: i64,
    /// Ambient light, milli-lux.
    pub light: Option<i64>,
    /// Capture timestamp.
    pub timestamp: Timestamp,
}

/// Which scalar a reaction rule extracts from a reading.
#[derive(Debug, Clone, Copy, PartialEq, Eq, Structural)]
pub enum MetricKind {
    Co2,
    Temperature,
    Eco2,
    Etvoc,
    Pressure,
    Humidity,
    Light,
}

/// The scalar a rule watches; absent optional metrics read as zero.
pub open spec fn spec_metric_value(data: ClimateData, metric: MetricKind) -> i64 {
    match metric {
        MetricKind::Co2 => match data.co2 {
            Some(v) => v,
            None => 0,
        },
        MetricKind::Temperature => data.temperature,
        MetricKind::Eco2 => data.eco2,
        MetricKind::Etvoc => data.etvoc,
        MetricKind::Pressure => data.pressure,
        MetricKind::Humidity => data.humidity,
        MetricKind::Light => match data.light {
            Some(v) => v,
            None => 0,
        },
    }
}

/// Extracts the scalar a rule watches from a reading.
pub fn metric_value(data: &ClimateData, metric: MetricKind) -> (r: i64)
    ensures
        r == spec_metric_value(*data, metric),
{
    match metric {
        MetricKind::Co2 => match data.co2 {
            Some(v) => v,
            None => 0,
        },
        MetricKind::Temperature => data.temperature,
        MetricKind::Eco2 => data.eco2,
        MetricKind::Etvoc => data.etvoc,
        MetricKind::Pressure => data.pressure,
        MetricKind::Humidity => data.humidity,
        MetricKind::Light => match data.light {
            Some(v) => v,
            None => 0,
        },
    }
}

} // verus!
