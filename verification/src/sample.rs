//! Sample normalization.
//!
//! Devices deliver samples in one of a small, closed set of encodings.  The
//! engine reduces every encoding once, at stream-build time, to a canonical
//! fixed-point form: a Q15 value `q` stands for the amplitude `q / 32767`,
//! so full scale [-1.0, 1.0] is the integer range [-32767, 32767].  This is
//! exactly the set of values a 16-bit PCM container can carry, which makes
//! the encoder a plain copy and keeps the per-sample path branch-light.

use vstd::prelude::*;

verus! {

/// The sample encodings the capture engine accepts from an input device.
///
/// The set is closed: a stream is built with exactly one of these, chosen
/// once from the device's native format, never per sample.
#[derive(Clone, Copy, PartialEq, Eq, Structural, Debug)]
pub enum SampleEncoding {
    /// 32-bit float samples, already normalized to [-1.0, 1.0] by the source.
    Float32,
    /// Signed 16-bit integer samples at native scale.
    SignedInt16,
    /// Unsigned 16-bit integer samples, midpoint 32768 standing for zero.
    UnsignedInt16,
}

/// Canonical form of a signed 16-bit sample: the amplitude `raw / 32767`
/// clamped to full scale, so only `i16::MIN` moves (to -32767).
pub open spec fn spec_normalize_i16(raw: i16) -> int {
    if raw < -32767 {
        -32767
    } else {
        raw as int
    }
}

/// Canonical form of an unsigned 16-bit sample: the amplitude
/// `(raw / 65535) * 2 - 1` scaled to Q15 and rounded to the nearest integer,
/// halves away from zero.  Both branches keep every quantity non-negative,
/// so `/` is plain floor division.
pub open spec fn spec_normalize_u16(raw: u16) -> int {
    if raw >= 32768 {
        ((2 * raw - 65535) * 32767 + 32767) / 65535
    } else {
        -(((65535 - 2 * raw) * 32767 + 32767) / 65535)
    }
}

/// Normalizes one signed 16-bit sample to canonical Q15.
///
/// Maximum positive input stays full scale and the maximum negative input
/// lands on -32767, the canonical -1.0.
pub fn normalize_i16(raw: i16) -> (q: i16)
    ensures
        q as int == spec_normalize_i16(raw),
        -32767 <= q <= 32767,
        raw == 32767 ==> q == 32767,
        raw == i16::MIN ==> q == -32767,
{
    if raw == i16::MIN {
        -32767
    } else {
        raw
    }
}

/// Normalizes one unsigned 16-bit sample to canonical Q15.
///
/// The maximum input 65535 lands on full scale 32767 (canonical 1.0) and the
/// minimum input 0 lands on -32767 (canonical -1.0); the midpoint region
/// 32767..=32768 lands on 0.
pub fn normalize_u16(raw: u16) -> (q: i16)
    ensures
        q as int == spec_normalize_u16(raw),
        -32767 <= q <= 32767,
        raw == 65535 ==> q == 32767,
        raw == 0 ==> q == -32767,
        raw == 32768 ==> q == 0,
        raw == 32767 ==> q == 0,
{
    if raw >= 32768 {
        let num: u64 = (2 * (raw as u64) - 65535) * 32767 + 32767;
        assert(num < 65535 * 32768) by (nonlinear_arith)
            requires
                num == (2 * (raw as u64) - 65535) * 32767 + 32767,
                raw <= 65535,
                raw >= 32768,
        ;
        let q64: u64 = num / 65535;
        assert(q64 < 32768) by (nonlinear_arith)
            requires
                q64 == num / 65535,
                num < 65535 * 32768,
        ;
        q64 as i16
    } else {
        let num: u64 = (65535 - 2 * (raw as u64)) * 32767 + 32767;
        assert(num < 65535 * 32768) by (nonlinear_arith)
            requires
                num == (65535 - 2 * (raw as u64)) * 32767 + 32767,
                raw < 32768,
        ;
        let q64: u64 = num / 65535;
        assert(q64 < 32768) by (nonlinear_arith)
            requires
                q64 == num / 65535,
                num < 65535 * 32768,
        ;
        let q: i16 = q64 as i16;
        -q
    }
}

} // verus!
