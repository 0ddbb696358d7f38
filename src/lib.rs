//! A loudness limiter for live audio: a fixed-capacity window of recent chunk
//! peaks, the gain rule derived from it, the sample byte codec, and the
//! decisions that drive the capture/playback session.

pub mod ring_buffer;
pub mod codec;
pub mod gain;
pub mod session;
