//! A fixed-capacity latency ring buffer for real-time audio loopback.
//!
//! The core type is a circular sample buffer that decouples an audio input
//! callback from an audio output callback. It is created with a target
//! latency of `L` samples, holds at most `2 * L` samples, and is prefilled
//! with `L` silence samples so that playback runs `L` samples behind capture.

pub mod control;
pub mod model;
pub mod ring;
pub mod spsc;

pub use control::Activity;
pub use control::toggled;
pub use model::SILENCE;
pub use ring::LatencyRb;
pub use spsc::Consumer;
pub use spsc::Producer;
