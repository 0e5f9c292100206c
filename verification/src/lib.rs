//! Configuration of a rolling aggregation over a time-based window.
//!
//! A [`RollingOptionsDynamicWindow`] carries the window's length, the number of
//! observations a window must hold, the closure policy of its boundaries, and
//! an optional, shared parameter payload for the rolling function. The payload
//! is never compared or persisted directly: equality and the persisted record
//! both go through the closed set of [`RollingFnParams`].
pub mod options;
pub mod params;
pub mod record;
pub mod window;

pub use options::RollingOptionsDynamicWindow;
pub use params::{
    canonical_form, payload_of, DynArgs, ParamPayload, QuantileInterpolOptions, RollingFnParams,
    RollingQuantileParams, RollingVarParams,
};
pub use record::{DecodeError, Record, RecordField};
pub use window::{ClosedWindow, Duration};
