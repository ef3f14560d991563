//! A debounced change detector for a noisy two-state sensor signal.
//!
//! Samples of a sensor classification are fed in with non-decreasing
//! timestamps; once a new classification has held for the dwell threshold,
//! exactly one event is made available for the caller to consume.

pub mod context;
pub mod lemmas;
pub mod obniz;

pub use context::{
    Context, ContextView, DetectorState, Event, EventKind, SensorStatusKind, Timestamp,
    update_and_check_status, DURATION_THRESHOLD_SECS,
};

pub use obniz::{parse_status, Status};
