//! Protocol identifiers and fixed payloads, supplied as an explicit
//! configuration constructed once at startup and passed by reference into
//! discovery and link-session calls. The core treats every identifier as an
//! opaque 128-bit UUID value; names are carried as raw bytes.

use vstd::prelude::*;

verus! {

/// External configuration for one peripheral profile.
pub struct ProtocolConfig {
    /// Substring the main sensor advertises in its local name.
    pub main_local_name: Vec<u8>,
    /// Service UUID of the main telemetry service.
    pub main_service: u128,
    /// Characteristic UUID of the primary telemetry stream.
    pub stream_char: u128,
    /// Characteristic UUID for CO2 calibration writes.
    pub co2_calibration_char: u128,
    /// Characteristic UUID for temperature calibration writes.
    pub temp_calibration_char: u128,
    /// Payload written to trigger a CO2 calibration measurement.
    pub co2_calibration_payload: Vec<u8>,
    /// Substring the window-state sensor advertises in its local name.
    pub window_local_name: Vec<u8>,
    /// Service UUID of the window-state sensor.
    pub window_service: u128,
    /// Characteristic UUID the window state is read from.
    pub window_read_char: u128,
}

} // verus!
