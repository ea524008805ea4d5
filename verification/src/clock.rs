//! Wall-clock access. History points are stamped with the local wall clock at
//! capture time, not with any device-side clock.

use vstd::prelude::*;

verus! {

/// Relies on chrono's `Local::now` and `DateTime::timestamp_millis`: the
/// current local wall clock as non-leap milliseconds since the Unix epoch.
/// Nothing can be promised of a clock reading.
#[verifier::external_body]
pub(crate) fn now_millis() -> i64 {
    chrono::Local::now().timestamp_millis()
}

/// Relies on chrono's `Timelike::hour` on `Local::now`: the hour number of
/// the current local time, which chrono documents as 0 to 23.
#[verifier::external_body]
pub(crate) fn local_hour() -> (h: u32)
    ensures
        h < 24,
{
    chrono::Timelike::hour(&chrono::Local::now())
}

} // verus!
