//! Verified core of a virtual WaveRT audio device: the audio ring buffer,
//! the clock-to-position arithmetic, and the decisions behind the driver's
//! kernel-streaming callbacks (property handlers, format negotiation,
//! miniport interfaces, stream state, control requests, setup sequences).
//!
//! The kernel calls themselves are made by the driver around this crate;
//! every function here works on plain values.

pub mod buffer;
pub mod com;
pub mod descriptors;
pub mod dispatch;
pub mod format;
pub mod ks;
pub mod math;
pub mod setup;
pub mod shared;
pub mod stream;
pub mod topology;
pub mod wavert;
