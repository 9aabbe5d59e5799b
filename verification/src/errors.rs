//! Error taxonomy of the audio capture engine.
//!
//! Resolution errors come from bad selectors or absent hardware; stream
//! lifecycle errors are fatal at open time; a runtime stream error is
//! captured asynchronously and surfaced at drain time; `NoAudioCaptured`
//! marks a silent, non-functional device over a full capture window; the
//! writer errors mark container parameters the PCM format cannot carry.
//! No error is ever retried inside the engine.

use vstd::prelude::*;

verus! {

/// One failure of a capture or level-metering operation.
#[derive(Debug, Clone, PartialEq, Eq)]
pub enum AudioError {
    /// A default input device was requested and the host has none.
    NoDefaultDevice,
    /// The requested device index walks off the end of the enumeration.
    DeviceNotFound { index: u32 },
    /// The device cannot be configured for capture.
    StreamBuildFailed { detail: String },
    /// The configured stream refused to start.
    StreamStartFailed { detail: String },
    /// The device's native sample encoding is outside the supported set.
    UnsupportedFormat,
    /// The running stream reported an asynchronous error; only the first
    /// such error is kept, and it outranks any partially filled buffer.
    StreamFailed { detail: String },
    /// A full-duration capture ended with an empty buffer.
    NoAudioCaptured,
    /// The container parameters (channel count, sample rate) are invalid
    /// for a PCM container.
    WriterInitFailed,
    /// The sample data is too large for a PCM container's 32-bit sizes.
    WriteFailed,
}

} // verus!
