//! The secondary window-state sensor: its one-byte payload and the decision
//! the window reaction takes on it. Finding and reading the sensor is
//! outside work; the retry budget for finding it is decided here.

use vstd::prelude::*;

use crate::decode::{DecodeError, FromBleData};

verus! {

/// How many whole discovery rounds are attempted before the window sensor is
/// reported as unreachable.
pub const WINDOW_DISCOVERY_ATTEMPTS: u32 = 30;

/// The reported state of the window.
#[derive(Debug, Clone, Copy, PartialEq, Eq, Structural)]
pub struct WindowState {
    pub is_closed: bool,
}

impl FromBleData for WindowState {
    /// The payload's first byte is 1 exactly when the window is closed; an
    /// empty payload is malformed.
    open spec fn spec_from_bytes(data: Seq<u8>, now: i64) -> Result<Self, DecodeError> {
        if data.len() == 0 {
            Err(DecodeError::Syntax)
        } else {
            Ok(WindowState { is_closed: data[0] == 1 })
        }
    }

    fn from_bytes(data: &[u8], now: i64) -> (r: Result<Self, DecodeError>) {
        if data.len() == 0 {
            Err(DecodeError::Syntax)
        } else {
            Ok(WindowState { is_closed: data[0] == 1 })
        }
    }
}

/// Whether another discovery round for the window sensor is in budget.
pub fn should_retry_window_discovery(attempt: u32) -> (r: bool)
    ensures
        r == (attempt < WINDOW_DISCOVERY_ATTEMPTS),
{
    attempt < WINDOW_DISCOVERY_ATTEMPTS
}

/// The window reaction suggests closing the blinds exactly when the window
/// is reported closed.
pub fn should_notify_blinds(state: &WindowState) -> (r: bool)
    ensures
        r == state.is_closed,
{
    state.is_closed
}

} // verus!
