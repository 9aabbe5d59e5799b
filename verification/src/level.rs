//! The level sampler's signal statistics.
//!
//! A short capture buffer is reduced to RMS and peak statistics over the
//! canonical Q15 samples, plus a silence classification.  Both statistics
//! live on the same Q15 scale as the samples: a value `v` stands for the
//! level `v / 32767` of full scale.  The RMS is the integer square root of
//! the mean squared sample, pinned by its square bracket in the contract.

use vstd::prelude::*;

verus! {

/// Q15 level below which a signal counts as silence: 0.01 of full scale,
/// rounded up (0.01 * 32767 = 327.67).
pub const SILENCE_THRESHOLD_Q15: u16 = 328;

/// Signal-level statistics of one captured buffer, on the Q15 scale.
#[derive(Clone, Copy, PartialEq, Eq, Structural, Debug)]
pub struct LevelStatistics {
    /// Root mean square of the samples.
    pub rms: u16,
    /// Largest absolute sample value.
    pub peak: u16,
    /// Whether the RMS is below the silence threshold.
    pub is_silent: bool,
}

/// Absolute value of one sample.
pub open spec fn abs_sample(s: i16) -> int {
    if s >= 0 {
        s as int
    } else {
        -(s as int)
    }
}

/// Sum of the squared samples.
pub open spec fn sum_squares(s: Seq<i16>) -> int
    decreases s.len(),
{
    if s.len() == 0 {
        0
    } else {
        sum_squares(s.drop_last()) + s.last() * s.last()
    }
}

/// Largest absolute sample value, 0 for an empty buffer.
pub open spec fn peak_abs(s: Seq<i16>) -> int
    decreases s.len(),
{
    if s.len() == 0 {
        0
    } else {
        let rest = peak_abs(s.drop_last());
        if abs_sample(s.last()) > rest {
            abs_sample(s.last())
        } else {
            rest
        }
    }
}

/// The squared-sample sum never exceeds one maximal square per sample.
proof fn lemma_sum_squares_bound(s: Seq<i16>)
    ensures
        0 <= sum_squares(s) <= s.len() * 0x4000_0000,
    decreases s.len(),
{
    if s.len() > 0 {
        lemma_sum_squares_bound(s.drop_last());
        let x = s.last() as int;
        assert(x * x <= 0x4000_0000) by (nonlinear_arith)
            requires
                -0x8000 <= x <= 0x7fff,
        ;
        assert(x * x >= 0) by (nonlinear_arith);
    }
}

/// Integer square root: the unique `r` with `r * r <= x < (r + 1) * (r + 1)`.
fn isqrt64(x: u64) -> (r: u64)
    requires
        x < 0x1_0000_0000,
    ensures
        r * r <= x < (r + 1) * (r + 1),
{
    let mut lo: u64 = 0;
    let mut hi: u64 = 65536;
    while lo + 1 < hi
        invariant
            lo < hi <= 65536,
            lo * lo <= x,
            x < hi * hi,
        decreases hi - lo,
    {
        let mid: u64 = lo + (hi - lo) / 2;
        assert(mid * mid <= 65536 * 65536) by (nonlinear_arith)
            requires
                0 <= mid <= 65536,
        ;
        if mid * mid <= x {
            lo = mid;
        } else {
            hi = mid;
        }
    }
    lo
}

/// Reduces a captured buffer to its level statistics.
///
/// An empty buffer is a valid silent reading, not an error: it meters at
/// zero.  Otherwise the peak is the largest absolute sample, the RMS is the
/// integer square root of the mean squared sample, and the buffer counts as
/// silent exactly when the RMS is below the silence threshold.
pub fn compute_level(samples: &Vec<i16>) -> (r: LevelStatistics)
    ensures
        samples@.len() == 0 ==> r == (LevelStatistics { rms: 0, peak: 0, is_silent: true }),
        samples@.len() > 0 ==> {
            &&& r.peak == peak_abs(samples@)
            &&& r.rms * r.rms <= sum_squares(samples@) / (samples@.len() as int)
            &&& sum_squares(samples@) / (samples@.len() as int) < (r.rms + 1) * (r.rms + 1)
            &&& r.is_silent == (r.rms < SILENCE_THRESHOLD_Q15)
        },
{
    let n: usize = samples.len();
    if n == 0 {
        return LevelStatistics { rms: 0, peak: 0, is_silent: true };
    }

    let mut sum: u128 = 0;
    let mut peak: u16 = 0;
    let mut i: usize = 0;
    while i < n
        invariant
            i <= n,
            n == samples@.len(),
            sum == sum_squares(samples@.subrange(0, i as int)),
            peak == peak_abs(samples@.subrange(0, i as int)),
            peak <= 0x8000,
        decreases n - i,
    {
        let s: i16 = samples[i];
        let a: u32 = if s >= 0 {
            s as u32
        } else {
            (-(s as i32)) as u32
        };
        assert(a == abs_sample(samples@[i as int]));
        proof {
            lemma_sum_squares_bound(samples@.subrange(0, i as int));
            assert((a as int) * (a as int) == (s as int) * (s as int)) by (nonlinear_arith)
                requires
                    a == abs_sample(s),
                    abs_sample(s) == if s >= 0 {
                        s as int
                    } else {
                        -(s as int)
                    },
            ;
            assert((a as int) * (a as int) <= 0x4000_0000) by (nonlinear_arith)
                requires
                    0 <= a <= 0x8000,
            ;
            assert(samples@.subrange(0, i as int).len() * 0x4000_0000
                <= 0x4000_0000_0000_0000_0000_0000) by (nonlinear_arith)
                requires
                    samples@.subrange(0, i as int).len() <= 0x1_0000_0000_0000_0000,
            ;
        }
        let sq: u64 = (a as u64) * (a as u64);
        sum = sum + (sq as u128);
        if a > peak as u32 {
            peak = a as u16;
        }
        proof {
            let prefix = samples@.subrange(0, i as int);
            let here = samples@[i as int];
            let ext = samples@.subrange(0, i as int + 1);
            assert(ext.drop_last() =~= prefix);
            assert(ext.last() == here);
        }
        i = i + 1;
    }
    proof {
        assert(samples@.subrange(0, n as int) =~= samples@);
        lemma_sum_squares_bound(samples@);
        assert(sum / (n as u128) <= 0x4000_0000) by (nonlinear_arith)
            requires
                n > 0,
                sum <= (n as int) * 0x4000_0000,
        ;
    }
    let mean: u64 = (sum / (n as u128)) as u64;
    let rms64: u64 = isqrt64(mean);
    proof {
        assert(rms64 <= 0x8000) by (nonlinear_arith)
            requires
                rms64 * rms64 <= 0x4000_0000,
        ;
    }
    let rms: u16 = rms64 as u16;
    LevelStatistics { rms, peak, is_silent: rms < SILENCE_THRESHOLD_Q15 }
}

/// A signal of constant amplitude: every sample is `q` or `-q`.
pub open spec fn uniform_amplitude(s: Seq<i16>, q: i16) -> bool {
    forall|i: int| 0 <= i < s.len() ==> s[i] == q || s[i] == -q
}

/// A constant-amplitude signal sums to one square per sample and peaks at
/// its amplitude.
proof fn lemma_uniform_amplitude_sums(s: Seq<i16>, q: i16)
    requires
        0 <= q,
        uniform_amplitude(s, q),
    ensures
        sum_squares(s) == s.len() * (q as int) * (q as int),
        s.len() > 0 ==> peak_abs(s) == q,
    decreases s.len(),
{
    if s.len() > 0 {
        let prefix = s.drop_last();
        assert(uniform_amplitude(prefix, q));
        lemma_uniform_amplitude_sums(prefix, q);
        let x = s.last() as int;
        let qi = q as int;
        assert(x * x == qi * qi) by (nonlinear_arith)
            requires
                x == qi || x == -qi,
        ;
        assert(abs_sample(s.last()) == qi);
        assert(prefix.len() * qi * qi + qi * qi == s.len() * qi * qi) by (nonlinear_arith)
            requires
                prefix.len() + 1 == s.len(),
        ;
        if prefix.len() == 0 {
            assert(peak_abs(prefix) == 0);
            assert(peak_abs(s) == qi);
        } else {
            assert(peak_abs(prefix) == qi);
            assert(peak_abs(s) == qi);
        }
    }
}

/// Metering law for constant-amplitude signals: a non-empty buffer whose
/// every sample is `q` or `-q` (0 <= q <= full scale) meters at RMS exactly
/// `q` and peak exactly `q`.  The RMS premises are the square bracket that
/// `compute_level` establishes for any non-empty buffer.
pub proof fn lemma_constant_signal_levels(s: Seq<i16>, q: i16, rms: u16)
    requires
        s.len() > 0,
        0 <= q <= 32767,
        uniform_amplitude(s, q),
        rms * rms <= sum_squares(s) / (s.len() as int),
        sum_squares(s) / (s.len() as int) < (rms + 1) * (rms + 1),
    ensures
        rms == q,
        peak_abs(s) == q,
{
    lemma_uniform_amplitude_sums(s, q);
    let n = s.len() as int;
    let qi = q as int;
    assert((n * qi * qi) / n == qi * qi) by (nonlinear_arith)
        requires
            n > 0,
    ;
    assert(rms == q) by (nonlinear_arith)
        requires
            0 <= rms,
            0 <= qi,
            rms * rms <= qi * qi,
            qi * qi < (rms + 1) * (rms + 1),
            q == qi,
    ;
}

} // verus!
