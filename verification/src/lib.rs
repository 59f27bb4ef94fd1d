//! Verified core of a camera-based motion watcher.
//!
//! The library holds the logic of the watcher: raster frames, the
//! threshold-based motion detector, the control-loop state machine and the
//! fixed alarm sequence. Device handling (camera, indicator, speaker) lives
//! outside the library and drives it through plain values.

pub mod alarm;
pub mod codec;
pub mod controller;
pub mod detect;
pub mod frame;
