//! Battery level of SteelSeries Arctis wireless headsets.
//!
//! The crate holds the table of known headset models, the request frame and
//! the decoding of the reply for each of them, and the scan that picks the
//! first attached headset that answers.

pub mod known_devices;
pub mod poll;
pub mod query;
pub mod scaling;
