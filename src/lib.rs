//! Decode-to-playback core of a single-session network audio receiver.

pub mod bridge;
pub mod codec;
pub mod latency;
pub mod session;
