//! The core of a terminal transport player: loudness metering in fixed
//! point, a playback clock driven by timestamps, bar and beat arithmetic,
//! and the status snapshot that is published for other processes.
//!
//! All quantities are integers. Time is counted in nanoseconds, tempo in
//! thousandths of a beat per minute, and loudness in units of 2^-31 of full
//! scale.

pub mod root;
pub mod error;
pub mod wav;
pub mod meter;
pub mod tempo;
pub mod clock;
pub mod status;
pub mod transport;
pub mod display;
