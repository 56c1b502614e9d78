//! Session logic of a single-pass H.264 encoding pipeline: the encoder
//! parameter policy, the open/submit/flush/close protocol of one session as a
//! state machine that a driver runs against the native engine, and the
//! collection of the emitted bitstream.
pub mod error;
pub mod frame;
pub mod lifecycle;
pub mod params;
pub mod session;
pub mod stream;
