//! The timed capture controller and level sampler decisions.
//!
//! A bounded capture session moves forward through one sequence of phases —
//! resolve the device and pick a normalizer, run the stream for a clamped
//! duration, stop it, then drain the shared buffer — and never cycles back.
//! The engine owns every decision along that path: duration clamping,
//! stream planning (`plan_stream`), and draining (`finish_capture`,
//! `finish_level`).  The driver in between only performs the platform work
//! the plan asks for — open the stream, wait, stop it — and hands back the
//! buffer plus the first asynchronous stream error, if any was recorded.
//!
//! At drain time a recorded stream error always outranks the buffer: a
//! stream that failed mid-capture must not pass off truncated audio as
//! clean.  After an error-free full-duration run an empty buffer is the
//! distinct failure `NoAudioCaptured`; the level sampler instead reads an
//! empty buffer as a legitimate silent window.

use vstd::prelude::*;

use crate::device::{spec_resolve_index, DeviceDescriptor};
use crate::errors::AudioError;
use crate::level::{compute_level, peak_abs, sum_squares, LevelStatistics, SILENCE_THRESHOLD_Q15};
use crate::sample::SampleEncoding;
use crate::wav::{encode_wav, spec_wav_bytes, wav_params_valid, wav_size_ok, PcmContainer};

verus! {

/// Shortest full capture, in seconds.
pub const CAPTURE_MIN_SECS: u32 = 1;

/// Longest full capture, in seconds.
pub const CAPTURE_MAX_SECS: u32 = 30;

/// Full capture duration when none is requested, in seconds.
pub const CAPTURE_DEFAULT_SECS: u32 = 5;

/// Shortest level-sampling window, in milliseconds.
pub const LEVEL_MIN_MS: u32 = 10;

/// Longest level-sampling window, in milliseconds.
pub const LEVEL_MAX_MS: u32 = 1000;

/// Level-sampling window when none is requested, in milliseconds.
pub const LEVEL_DEFAULT_MS: u32 = 100;

/// A requested duration clamped into an allowed range, with a default for
/// an absent request.
pub open spec fn spec_clamp_duration(requested: Option<u32>, default: u32, lo: u32, hi: u32) -> u32 {
    let v = match requested {
        Some(v) => v,
        None => default,
    };
    if v < lo {
        lo
    } else if v > hi {
        hi
    } else {
        v
    }
}

/// Clamps a requested full-capture duration into [1, 30] seconds
/// (default 5).  An out-of-range request is clamped, never rejected.
pub fn clamp_capture_duration(requested: Option<u32>) -> (d: u32)
    ensures
        d == spec_clamp_duration(requested, CAPTURE_DEFAULT_SECS, CAPTURE_MIN_SECS, CAPTURE_MAX_SECS),
        CAPTURE_MIN_SECS <= d <= CAPTURE_MAX_SECS,
{
    let v: u32 = match requested {
        Some(v) => v,
        None => CAPTURE_DEFAULT_SECS,
    };
    if v < CAPTURE_MIN_SECS {
        CAPTURE_MIN_SECS
    } else if v > CAPTURE_MAX_SECS {
        CAPTURE_MAX_SECS
    } else {
        v
    }
}

/// Clamps a requested level-sampling window into [10, 1000] milliseconds
/// (default 100).  An out-of-range request is clamped, never rejected.
pub fn clamp_level_duration(requested: Option<u32>) -> (d: u32)
    ensures
        d == spec_clamp_duration(requested, LEVEL_DEFAULT_MS, LEVEL_MIN_MS, LEVEL_MAX_MS),
        LEVEL_MIN_MS <= d <= LEVEL_MAX_MS,
{
    let v: u32 = match requested {
        Some(v) => v,
        None => LEVEL_DEFAULT_MS,
    };
    if v < LEVEL_MIN_MS {
        LEVEL_MIN_MS
    } else if v > LEVEL_MAX_MS {
        LEVEL_MAX_MS
    } else {
        v
    }
}

/// Everything the driver needs to open one input stream: which device, at
/// which native format, through which normalizer path.  The encoding is
/// settled here, once, at stream-build time — the per-sample path never
/// inspects it again.
#[derive(Clone, PartialEq, Debug)]
pub struct StreamPlan {
    /// Index of the resolved device within the enumeration pass.
    pub device_index: usize,
    /// Native sample rate the stream will run at, in Hz.
    pub sample_rate: u32,
    /// Native channel count of the stream.
    pub channel_count: u16,
    /// The normalizer path selected for the device's native encoding.
    pub encoding: SampleEncoding,
}

/// Plans one input stream over an enumeration pass: resolves the selector,
/// then settles the normalizer path from the device's native format.
///
/// Fails with the resolution error when the selector resolves to no device;
/// with `StreamBuildFailed` when the device reports no configuration; with
/// `UnsupportedFormat` when its native encoding is outside the supported
/// set.  Otherwise the plan carries the device's native format unchanged.
pub fn plan_stream(devices: &Vec<DeviceDescriptor>, selector: Option<u32>) -> (r: Result<
    StreamPlan,
    AudioError,
>)
    ensures
        match spec_resolve_index(devices@, selector) {
            Err(e) => r == Err::<StreamPlan, AudioError>(e),
            Ok(k) => {
                let desc = devices@[k];
                match desc.format {
                    None => r matches Err(e) && e matches AudioError::StreamBuildFailed { detail }
                        && detail@ == "no input configuration available"@,
                    Some(f) => match f.encoding {
                        None => r == Err::<StreamPlan, AudioError>(AudioError::UnsupportedFormat),
                        Some(enc) => r == Ok::<StreamPlan, AudioError>(
                            StreamPlan {
                                device_index: k as usize,
                                sample_rate: f.sample_rate,
                                channel_count: f.channel_count,
                                encoding: enc,
                            },
                        ),
                    },
                }
            },
        },
{
    let resolved = crate::device::resolve_device(devices, selector);
    match resolved {
        Err(e) => Err(e),
        Ok(i) => {
            let desc = &devices[i];
            match &desc.format {
                None => Err(
                    AudioError::StreamBuildFailed {
                        detail: String::from_str("no input configuration available"),
                    },
                ),
                Some(f) => match f.encoding {
                    None => Err(AudioError::UnsupportedFormat),
                    Some(enc) => Ok(
                        StreamPlan {
                            device_index: i,
                            sample_rate: f.sample_rate,
                            channel_count: f.channel_count,
                            encoding: enc,
                        },
                    ),
                },
            }
        },
    }
}

/// Drains a finished full-duration capture session.
///
/// A recorded stream error outranks everything and the partial buffer is
/// discarded; an error-free run that captured nothing is the distinct
/// failure `NoAudioCaptured`; otherwise the buffer is encoded into a PCM
/// container tagged with the stream's native format.
pub fn finish_capture(
    samples: Vec<i16>,
    stream_error: Option<String>,
    sample_rate: u32,
    channel_count: u16,
) -> (r: Result<PcmContainer, AudioError>)
    ensures
        stream_error matches Some(msg) ==> (r matches Err(e) && e matches AudioError::StreamFailed {
            detail,
        } && detail@ == msg@),
        stream_error is None && samples@.len() == 0 ==> r == Err::<PcmContainer, AudioError>(
            AudioError::NoAudioCaptured,
        ),
        stream_error is None && samples@.len() > 0 && wav_params_valid(sample_rate, channel_count)
            && wav_size_ok(samples@.len() as int) ==> (r matches Ok(c) && c.sample_rate
            == sample_rate && c.channel_count == channel_count && c.bit_depth == 16 && c.data@
            == spec_wav_bytes(samples@, sample_rate, channel_count)),
        stream_error is None && samples@.len() > 0 && !wav_params_valid(sample_rate, channel_count)
            ==> r == Err::<PcmContainer, AudioError>(AudioError::WriterInitFailed),
        stream_error is None && samples@.len() > 0 && wav_params_valid(sample_rate, channel_count)
            && !wav_size_ok(samples@.len() as int) ==> r == Err::<PcmContainer, AudioError>(
            AudioError::WriteFailed,
        ),
{
    match stream_error {
        Some(msg) => Err(AudioError::StreamFailed { detail: msg }),
        None => {
            if samples.len() == 0 {
                return Err(AudioError::NoAudioCaptured);
            }
            match encode_wav(&samples, sample_rate, channel_count) {
                Ok(data) => Ok(
                    PcmContainer { sample_rate, channel_count, bit_depth: 16, data },
                ),
                Err(e) => Err(e),
            }
        },
    }
}

/// Drains a finished level-sampling session.
///
/// A recorded stream error outranks the buffer, exactly as for a full
/// capture; otherwise the buffer — empty included, a short window may
/// legitimately contain nothing — is reduced to its level statistics.
pub fn finish_level(samples: Vec<i16>, stream_error: Option<String>) -> (r: Result<
    LevelStatistics,
    AudioError,
>)
    ensures
        stream_error matches Some(msg) ==> (r matches Err(e) && e matches AudioError::StreamFailed {
            detail,
        } && detail@ == msg@),
        stream_error is None ==> (r matches Ok(st) && {
            &&& samples@.len() == 0 ==> st == (LevelStatistics { rms: 0, peak: 0, is_silent: true })
            &&& samples@.len() > 0 ==> {
                &&& st.peak == peak_abs(samples@)
                &&& st.rms * st.rms <= sum_squares(samples@) / (samples@.len() as int)
                &&& sum_squares(samples@) / (samples@.len() as int) < (st.rms + 1) * (st.rms + 1)
                &&& st.is_silent == (st.rms < SILENCE_THRESHOLD_Q15)
            }
        }),
{
    match stream_error {
        Some(msg) => Err(AudioError::StreamFailed { detail: msg }),
        None => Ok(compute_level(&samples)),
    }
}

} // verus!
