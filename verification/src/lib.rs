//! Client-side logic for a battery-powered wireless telemetry peripheral:
//! payload decoding, bounded rolling history with running min/max, a
//! trend-based reaction-rule evaluator, and the session state machines for
//! discovery, subscription streaming and best-effort disconnect.

pub mod advice;
pub mod climate_data;
mod clock;
pub mod config;
pub mod decode;
pub mod discovery;
pub mod history;
pub mod range;
pub mod reaction;
pub mod ring;
pub mod session;
pub mod trend;
pub mod ui;
pub mod window;

pub use climate_data::{ClimateData, MetricKind, Timestamp};
pub use config::ProtocolConfig;
pub use decode::{DecodeError, FromBleData};
pub use history::{History, HistoryPoint, HISTORY_SIZE};
pub use range::RunningRange;
pub use reaction::{ReactionAction, ReactionRule, RulePredicate};
pub use ring::MaxSizedVector;
pub use session::{BleAction, SessionError};
pub use trend::Trend;
pub use ui::{Action, CalibrationPopup, KeyPress, Tab, UiState, View};
pub use window::WindowState;
