//! Core library of a desktop presence tool server.
//!
//! The heart of the crate is the audio capture engine: resolving an input
//! device from an enumeration snapshot, normalizing raw samples of the
//! supported encodings into a canonical fixed-point form, reducing a captured
//! buffer to signal-level statistics, and serializing a buffer into an
//! uncompressed PCM (WAV) container.  The engine itself is free of I/O: a
//! thin driver owns the platform audio streams and hands buffers of plain
//! values in and out.
//!
//! The crate also carries the server's tool-configuration model and the small
//! data records and text helpers that the surrounding tools share.

pub mod config;
pub mod device;
pub mod errors;
pub mod level;
pub mod peripherals;
pub mod sample;
pub mod session;
pub mod shared;
pub mod status;
pub mod wav;
