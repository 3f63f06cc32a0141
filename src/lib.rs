//! Protocol engine for a motion sensor hub on a multi-channel packet bus:
//! packet framing and per-channel sequencing, the bring-up handshake as a
//! step function, sensor-report decoding, and the frame synchronizer that
//! fuses acceleration, angular rate and orientation into output frames.
//! The engine performs no I/O: callers move its bytes over the bus.

pub mod engine;
pub mod error;
pub mod packet;
pub mod recovery;
pub mod report;
pub mod sync;
pub mod text;
