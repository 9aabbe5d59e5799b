//! The device registry.
//!
//! An enumeration pass over the platform host yields a sequence of device
//! descriptors; a selector — an explicit index, or none for the platform
//! default — is resolved against exactly that snapshot.  Enumeration order
//! is the host's native order and is not stable across passes, so callers
//! resolve by index only within one pass and never cache indices.

use vstd::prelude::*;

use crate::errors::AudioError;
use crate::sample::SampleEncoding;
use crate::shared::{dec_digits, u64_to_string};

verus! {

/// The native capture configuration a device reports.
#[derive(Clone, Copy, PartialEq, Debug)]
pub struct DeviceFormat {
    /// Native sample rate in Hz.
    pub sample_rate: u32,
    /// Native channel count.
    pub channel_count: u16,
    /// Native sample encoding, `None` when it lies outside the supported
    /// set.
    pub encoding: Option<SampleEncoding>,
}

/// One input device of an enumeration pass.
#[derive(Clone, PartialEq, Debug)]
pub struct DeviceDescriptor {
    /// Ordinal index, stable only within the pass that produced it.
    pub index: u32,
    /// Display name.
    pub name: String,
    /// Whether the host reports this device as its default input.
    pub is_default: bool,
    /// Native configuration, `None` when the host cannot report one.
    pub format: Option<DeviceFormat>,
}

/// Whether some device of the pass is flagged as the host default.
pub open spec fn has_default(devices: Seq<DeviceDescriptor>) -> bool {
    exists|i: int| 0 <= i < devices.len() && devices[i].is_default
}

/// Index of the first device flagged as the host default (meaningful only
/// when one exists).
pub open spec fn first_default_index(devices: Seq<DeviceDescriptor>) -> int
    decreases devices.len(),
{
    if devices.len() == 0 {
        0
    } else if devices[0].is_default {
        0
    } else {
        1 + first_default_index(devices.drop_first())
    }
}

/// What resolving a selector against an enumeration pass yields: the index
/// of the chosen device, or the resolution error.  An explicit index walks
/// the pass and fails past its end; no selector picks the first default
/// device and fails when the pass has none.
pub open spec fn spec_resolve_index(
    devices: Seq<DeviceDescriptor>,
    selector: Option<u32>,
) -> Result<int, AudioError> {
    match selector {
        Some(idx) => if (idx as int) < devices.len() {
            Ok(idx as int)
        } else {
            Err(AudioError::DeviceNotFound { index: idx })
        },
        None => if has_default(devices) {
            Ok(first_default_index(devices))
        } else {
            Err(AudioError::NoDefaultDevice)
        },
    }
}

/// A device that is flagged default, with none flagged before it, is the
/// first default.
proof fn lemma_first_default_index(devices: Seq<DeviceDescriptor>, i: int)
    requires
        0 <= i < devices.len(),
        devices[i].is_default,
        forall|j: int| 0 <= j < i ==> !devices[j].is_default,
    ensures
        first_default_index(devices) == i,
    decreases i,
{
    if i > 0 {
        let rest = devices.drop_first();
        assert(forall|j: int| 0 <= j < i - 1 ==> rest[j] == devices[j + 1]);
        lemma_first_default_index(rest, i - 1);
    }
}

/// Resolves a device selector against one enumeration pass, yielding the
/// index of the chosen device within it.
pub fn resolve_device(devices: &Vec<DeviceDescriptor>, selector: Option<u32>) -> (r: Result<
    usize,
    AudioError,
>)
    ensures
        match spec_resolve_index(devices@, selector) {
            Ok(k) => r matches Ok(i) && i == k && k < devices@.len(),
            Err(e) => r == Err::<usize, AudioError>(e),
        },
{
    match selector {
        Some(idx) => {
            if (idx as usize) < devices.len() {
                Ok(idx as usize)
            } else {
                Err(AudioError::DeviceNotFound { index: idx })
            }
        },
        None => {
            let n: usize = devices.len();
            let mut i: usize = 0;
            while i < n
                invariant
                    selector is None,
                    i <= n,
                    n == devices@.len(),
                    forall|j: int| 0 <= j < i ==> !devices@[j].is_default,
                decreases n - i,
            {
                if devices[i].is_default {
                    proof {
                        assert(0 <= (i as int) && (i as int) < devices@.len() && devices@[i as int].is_default);
                        assert(has_default(devices@));
                        lemma_first_default_index(devices@, i as int);
                    }
                    return Ok(i);
                }
                i = i + 1;
            }
            Err(AudioError::NoDefaultDevice)
        },
    }
}


/// One supported capture configuration range a device reports: a sample
/// rate span at a fixed channel count and encoding.
#[derive(Clone, Copy, PartialEq, Debug)]
pub struct SupportedFormat {
    /// Lowest supported sample rate of the range, in Hz.
    pub min_sample_rate: u32,
    /// Highest supported sample rate of the range, in Hz.
    pub max_sample_rate: u32,
    /// Channel count of the range.
    pub channel_count: u16,
    /// Sample encoding of the range, `None` when it lies outside the
    /// supported set.
    pub encoding: Option<SampleEncoding>,
}

/// The display name of an encoding; anything outside the supported set
/// shows as unsupported.
pub open spec fn spec_encoding_name(e: Option<SampleEncoding>) -> Seq<char> {
    match e {
        Some(SampleEncoding::Float32) => "Float32"@,
        Some(SampleEncoding::SignedInt16) => "SignedInt16"@,
        Some(SampleEncoding::UnsignedInt16) => "UnsignedInt16"@,
        None => "Unsupported"@,
    }
}

/// The rendering of one supported configuration range: rate span, channel
/// count, encoding name.
pub open spec fn spec_describe_format(f: SupportedFormat) -> Seq<char> {
    dec_digits(f.min_sample_rate as nat) + "Hz-"@ + dec_digits(f.max_sample_rate as nat)
        + "Hz, "@ + dec_digits(f.channel_count as nat) + " ch, "@ + spec_encoding_name(f.encoding)
}

/// The display name of an encoding.
fn encoding_name(e: Option<SampleEncoding>) -> (r: &'static str)
    ensures
        r@ == spec_encoding_name(e),
{
    match e {
        Some(SampleEncoding::Float32) => "Float32",
        Some(SampleEncoding::SignedInt16) => "SignedInt16",
        Some(SampleEncoding::UnsignedInt16) => "UnsignedInt16",
        None => "Unsupported",
    }
}

/// Renders one supported configuration range for display.
pub fn describe_format(f: &SupportedFormat) -> (r: String)
    ensures
        r@ == spec_describe_format(*f),
{
    let mut s = u64_to_string(f.min_sample_rate as u64);
    s.append("Hz-");
    let max = u64_to_string(f.max_sample_rate as u64);
    s.append(max.as_str());
    s.append("Hz, ");
    let ch = u64_to_string(f.channel_count as u64);
    s.append(ch.as_str());
    s.append(" ch, ");
    s.append(encoding_name(f.encoding));
    s
}

} // verus!
