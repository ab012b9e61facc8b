//! Sample storage and delay lines for a stereo plate reverberator.
//!
//! The library is generic over the sample type: it owns the bookkeeping of the
//! reverberator's network (fixed-capacity circular stores, write cursors, the
//! fixed topology of delay capacities and output taps) and leaves arithmetic on
//! samples to the caller.
pub mod delay_line;
pub mod laws;
pub mod store;
pub mod tank;

pub use delay_line::DelayLine;
pub use store::SampleStore;
pub use tank::{tap_is_added, LineSamples, Tank};
