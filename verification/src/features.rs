//! Per-frame acoustic features.
//!
//! All quantities are integer fixed-point: volumes in thousandths of a dB,
//! frequencies in thousandths of a Hz, rates in per-mille.

use vstd::prelude::*;

use crate::fixed_point::{isqrt128, log2_fixed, spec_isqrt, spec_log2_fixed};

verus! {

/// Largest frame length the extractors accept; sums of squared samples
/// over a frame this long still fit the 64-bit fixed-point logarithm.
pub const MAX_FRAME_SAMPLES: usize = 0x20000;

/// Volume value that stands for silence (no measurable signal, minus
/// infinity dB).
pub const SILENCE_DB: i32 = i32::MIN;

/// Audio features extracted from one frame.
#[derive(Debug, Clone, Copy, PartialEq, Eq, Structural)]
pub struct AudioFeatures {
    /// Volume in thousandths of a dBFS; `SILENCE_DB` stands for silence.
    pub volume_db: i32,
    /// Estimated pitch in thousandths of a Hz; 0 means no confident estimate.
    pub pitch_hz: u32,
    /// Spectral-centroid proxy in thousandths of a Hz.
    pub spectral_centroid: u32,
    /// Zero-crossing rate in per-mille of adjacent pairs.
    pub zero_crossing_rate: u32,
}

impl Default for AudioFeatures {
    /// All features zero.
    fn default() -> (r: Self)
        ensures
            r == (AudioFeatures {
                volume_db: 0,
                pitch_hz: 0,
                spectral_centroid: 0,
                zero_crossing_rate: 0,
            }),
    {
        AudioFeatures { volume_db: 0, pitch_hz: 0, spectral_centroid: 0, zero_crossing_rate: 0 }
    }
}

impl AudioFeatures {
    /// A zeroed feature record.
    pub fn new() -> (r: Self)
        ensures
            r == (AudioFeatures {
                volume_db: 0,
                pitch_hz: 0,
                spectral_centroid: 0,
                zero_crossing_rate: 0,
            }),
    {
        AudioFeatures { volume_db: 0, pitch_hz: 0, spectral_centroid: 0, zero_crossing_rate: 0 }
    }

    /// Likely speech: fundamental frequency strictly between 50 Hz and
    /// 400 Hz and volume above -50 dB.
    pub fn is_likely_speech(&self) -> (r: bool)
        ensures
            r == (self.pitch_hz > 50_000 && self.pitch_hz < 400_000 && self.volume_db > -50_000),
    {
        self.pitch_hz > 50_000 && self.pitch_hz < 400_000 && self.volume_db > -50_000
    }
}

/// Sum of squared samples of a frame.
pub open spec fn spec_sum_squares(s: Seq<i16>) -> int
    decreases s.len(),
{
    if s.len() == 0 {
        0
    } else {
        spec_sum_squares(s.drop_last()) + (s.last() as int) * (s.last() as int)
    }
}

/// RMS volume of a frame in thousandths of a dBFS, through the fixed-point
/// base-2 logarithm: the mean square in the float domain is the sum of
/// squares over `len * 2^30`, and 10 log10 of it scales the logarithm
/// difference by 30103/10240. A silent frame is `SILENCE_DB`.
pub open spec fn spec_volume_mdb(s: Seq<i16>) -> int {
    let ss = spec_sum_squares(s);
    if s.len() == 0 || ss == 0 {
        SILENCE_DB as int
    } else {
        let l1 = spec_log2_fixed(ss as u64);
        let l2 = spec_log2_fixed((s.len() * 0x4000_0000) as u64);
        if l1 >= l2 {
            (l1 - l2) * 30103 / 10240
        } else {
            -((l2 - l1) * 30103 / 10240)
        }
    }
}

proof fn lemma_sum_squares_bound(s: Seq<i16>)
    ensures
        0 <= spec_sum_squares(s) <= s.len() * 0x4000_0000,
    decreases s.len(),
{
    if s.len() > 0 {
        lemma_sum_squares_bound(s.drop_last());
        assert(0 <= (s.last() as int) * (s.last() as int) <= 0x4000_0000) by (nonlinear_arith)
            requires
                -0x8000 <= s.last() <= 0x7FFF,
        ;
        assert((s.len() - 1) * 0x4000_0000 + 0x4000_0000 == s.len() * 0x4000_0000) by (
        nonlinear_arith);
    }
}

/// RMS volume in thousandths of a dBFS; `SILENCE_DB` for an empty or
/// all-zero frame.
pub fn calculate_volume(audio: &[i16]) -> (r: i32)
    requires
        audio@.len() <= MAX_FRAME_SAMPLES,
    ensures
        r == spec_volume_mdb(audio@),
{
    let n = audio.len();
    if n == 0 {
        return SILENCE_DB;
    }
    let sum_sq = sum_squares(audio);
    if sum_sq == 0 {
        return SILENCE_DB;
    }
    proof {
        lemma_sum_squares_bound(audio@);
        crate::fixed_point::lemma_log2_fixed_range(sum_sq);
        crate::fixed_point::lemma_log2_fixed_range((audio@.len() * 0x4000_0000) as u64);
    }
    let l1 = log2_fixed(sum_sq);
    let l2 = log2_fixed((n as u64) * 0x4000_0000);
    if l1 >= l2 {
        (((l1 - l2) as i64 * 30103) / 10240) as i32
    } else {
        (-(((l2 - l1) as i64 * 30103) / 10240)) as i32
    }
}

/// Sum of squared samples, as used by the volume and the VAD energy.
pub fn sum_squares(audio: &[i16]) -> (r: u64)
    requires
        audio@.len() <= MAX_FRAME_SAMPLES,
    ensures
        r == spec_sum_squares(audio@),
        r <= audio@.len() * 0x4000_0000,
{
    proof {
        lemma_sum_squares_bound(audio@);
    }
    let mut total: u64 = 0;
    let mut i: usize = 0;
    while i < audio.len()
        invariant
            i <= audio@.len() <= MAX_FRAME_SAMPLES,
            total == spec_sum_squares(audio@.subrange(0, i as int)),
            total <= i * 0x4000_0000,
        decreases audio.len() - i,
    {
        let s = audio[i];
        proof {
            assert(0 <= (s as int) * (s as int) <= 0x4000_0000) by (nonlinear_arith)
                requires
                    -0x8000 <= s <= 0x7FFF,
            ;
            assert(audio@.subrange(0, (i + 1) as int).drop_last() =~= audio@.subrange(0, i as int));
            assert(i * 0x4000_0000 + 0x4000_0000 == (i + 1) * 0x4000_0000) by (nonlinear_arith);
            assert(i * 0x4000_0000 <= MAX_FRAME_SAMPLES * 0x4000_0000) by (nonlinear_arith)
                requires
                    0 <= i <= MAX_FRAME_SAMPLES,
            ;
        }
        let sq = (s as i64) * (s as i64);
        total = total + (sq as u64);
        i += 1;
    }
    proof {
        assert(audio@.subrange(0, audio@.len() as int) =~= audio@);
    }
    total
}

/// Whether adjacent samples sit on opposite sides of zero.
pub open spec fn spec_is_crossing(a: i16, b: i16) -> bool {
    (a >= 0 && b < 0) || (a < 0 && b >= 0)
}

/// Count of adjacent sign changes in a frame.
pub open spec fn spec_crossings(s: Seq<i16>) -> int
    decreases s.len(),
{
    if s.len() < 2 {
        0
    } else {
        spec_crossings(s.drop_last()) + (if spec_is_crossing(s[s.len() - 2], s[s.len() - 1]) {
            1int
        } else {
            0int
        })
    }
}

proof fn lemma_crossings_bound(s: Seq<i16>)
    ensures
        0 <= spec_crossings(s),
        s.len() >= 1 ==> spec_crossings(s) <= s.len() - 1,
    decreases s.len(),
{
    if s.len() >= 2 {
        lemma_crossings_bound(s.drop_last());
    }
}

/// Zero-crossing rate in per-mille of adjacent pairs: sign changes over
/// `len - 1`; 0 for frames shorter than two samples.
pub open spec fn spec_zcr_permille(s: Seq<i16>) -> int {
    if s.len() < 2 {
        0
    } else {
        1000 * spec_crossings(s) / (s.len() - 1)
    }
}

/// Zero-crossing rate in per-mille of adjacent pairs.
pub fn calculate_zero_crossing_rate(audio: &[i16]) -> (r: u32)
    ensures
        r == spec_zcr_permille(audio@),
        r <= 1000,
{
    if audio.len() < 2 {
        return 0;
    }
    proof {
        lemma_crossings_bound(audio@);
    }
    let mut crossings: usize = 0;
    let mut i: usize = 1;
    while i < audio.len()
        invariant
            1 <= i <= audio@.len(),
            crossings == spec_crossings(audio@.subrange(0, i as int)),
            crossings < i,
        decreases audio.len() - i,
    {
        proof {
            lemma_crossings_bound(audio@.subrange(0, i as int));
            assert(audio@.subrange(0, (i + 1) as int).drop_last() =~= audio@.subrange(0, i as int));
            lemma_crossings_bound(audio@.subrange(0, (i + 1) as int));
        }
        if (audio[i - 1] >= 0 && audio[i] < 0) || (audio[i - 1] < 0 && audio[i] >= 0) {
            crossings += 1;
        }
        i += 1;
    }
    proof {
        assert(audio@.subrange(0, audio@.len() as int) =~= audio@);
        assert(1000 * spec_crossings(audio@) / (audio@.len() - 1) <= 1000) by (nonlinear_arith)
            requires
                0 <= spec_crossings(audio@) <= audio@.len() - 1,
                audio@.len() >= 2,
        ;
    }
    let r = ((1000 * (crossings as u128)) / ((audio.len() - 1) as u128)) as u32;
    r
}

/// Spectral-centroid proxy in thousandths of a Hz: the zero-crossing rate
/// scaled by half the sample rate, saturating at `u32::MAX`.
pub open spec fn spec_centroid_mhz(s: Seq<i16>, sample_rate: u32) -> int {
    let c = spec_zcr_permille(s) * (sample_rate as int) / 2;
    if c > u32::MAX as int {
        u32::MAX as int
    } else {
        c
    }
}

/// Spectral-centroid proxy in thousandths of a Hz.
pub fn calculate_spectral_centroid(audio: &[i16], sample_rate: u32) -> (r: u32)
    ensures
        r == spec_centroid_mhz(audio@, sample_rate),
{
    let zcr = calculate_zero_crossing_rate(audio);
    proof {
        assert((zcr as int) * (sample_rate as int) <= 1000 * 0xFFFF_FFFF) by (nonlinear_arith)
            requires
                0 <= zcr <= 1000,
                0 <= sample_rate <= 0xFFFF_FFFFu32,
        ;
    }
    let c = ((zcr as u64) * (sample_rate as u64)) / 2;
    if c > 0xFFFF_FFFF {
        u32::MAX
    } else {
        c as u32
    }
}

/// Lagged self-product of a frame: the sum over the first `n` samples of
/// each sample times the sample `off` places later.
pub open spec fn spec_dot_off(s: Seq<i16>, off: int, n: int) -> int
    decreases n,
{
    if n <= 0 {
        0
    } else {
        spec_dot_off(s, off, n - 1) + (s[n - 1] as int) * (s[n - 1 + off] as int)
    }
}

/// Sum of squares of `n` samples starting `off` places in.
pub open spec fn spec_sq_off(s: Seq<i16>, off: int, n: int) -> int
    decreases n,
{
    if n <= 0 {
        0
    } else {
        spec_sq_off(s, off, n - 1) + (s[n - 1 + off] as int) * (s[n - 1 + off] as int)
    }
}

/// Normalised autocorrelation of the frame at period `p`, in parts per
/// million: the lagged product over the integer square root of the two
/// energies; 0 unless the product and both energies are positive.
pub open spec fn spec_corr_ppm(s: Seq<i16>, p: int) -> int {
    let n = s.len() - p;
    let c = spec_dot_off(s, p, n);
    let n1 = spec_sq_off(s, 0, n);
    let n2 = spec_sq_off(s, p, n);
    if c > 0 && n1 > 0 && n2 > 0 {
        c * 1_000_000 / spec_isqrt(n1 * n2)
    } else {
        0
    }
}

/// Best candidate period in `[lo, hi)`, scanning upward and keeping the
/// first period whose score strictly exceeds all earlier ones; yields
/// (best score ppm, best period), (0, 0) when nothing positive was found.
pub open spec fn spec_best_corr(s: Seq<i16>, lo: int, hi: int) -> (int, int)
    decreases hi - lo,
{
    if hi <= lo {
        (0, 0)
    } else {
        let prev = spec_best_corr(s, lo, hi - 1);
        let sc = spec_corr_ppm(s, hi - 1);
        if sc > prev.0 {
            (sc, hi - 1)
        } else {
            prev
        }
    }
}

/// Pitch estimate in thousandths of a Hz by normalised autocorrelation:
/// candidate periods run from `rate/400` to `rate/50` samples (capped at
/// half the frame); the best one is reported as `rate/period` if its score
/// exceeds 0.6, and 0 otherwise, or for frames under 100 samples, or when
/// the period range is empty.
pub open spec fn spec_pitch_mhz(s: Seq<i16>, sample_rate: u32) -> int {
    if s.len() < 100 {
        0
    } else {
        let min_p = sample_rate as int / 400;
        let max_p = sample_rate as int / 50;
        if max_p >= s.len() || min_p >= max_p {
            0
        } else {
            let hi = if max_p <= s.len() / 2 {
                max_p
            } else {
                s.len() as int / 2
            };
            let best = spec_best_corr(s, min_p, hi);
            if best.1 > 0 && best.0 > 600_000 {
                let mhz = (sample_rate as int) * 1000 / best.1;
                if mhz > u32::MAX as int {
                    u32::MAX as int
                } else {
                    mhz
                }
            } else {
                0
            }
        }
    }
}

/// Fundamental-frequency estimate in thousandths of a Hz; 0 when no
/// confident estimate exists.
pub fn estimate_pitch(audio: &[i16], sample_rate: u32) -> (r: u32)
    requires
        audio@.len() <= MAX_FRAME_SAMPLES,
    ensures
        r == spec_pitch_mhz(audio@, sample_rate),
{
    let len = audio.len();
    if len < 100 {
        return 0;
    }
    let min_period = (sample_rate / 400) as usize;
    let max_period = (sample_rate / 50) as usize;
    if max_period >= len || min_period >= max_period {
        return 0;
    }
    let hi = if max_period <= len / 2 {
        max_period
    } else {
        len / 2
    };

    let mut best_ppm: u128 = 0;
    let mut best_period: usize = 0;
    let mut p = min_period;
    while p < hi
        invariant
            100 <= len == audio@.len() <= MAX_FRAME_SAMPLES,
            min_period < max_period < len,
            min_period <= p,
            hi <= len,
            p <= hi || p == min_period,
            best_period < len,
            (best_ppm as int, best_period as int) == spec_best_corr(
                audio@,
                min_period as int,
                p as int,
            ),
        decreases hi - p,
    {
        let n = len - p;
        let mut c: i64 = 0;
        let mut n1: u64 = 0;
        let mut n2: u64 = 0;
        let mut i: usize = 0;
        while i < n
            invariant
                n == len - p,
                p < len,
                len == audio@.len() <= MAX_FRAME_SAMPLES,
                i <= n,
                c == spec_dot_off(audio@, p as int, i as int),
                n1 == spec_sq_off(audio@, 0, i as int),
                n2 == spec_sq_off(audio@, p as int, i as int),
                -((i as int) * 0x4000_0000) <= c <= (i as int) * 0x4000_0000,
                n1 <= (i as int) * 0x4000_0000,
                n2 <= (i as int) * 0x4000_0000,
        decreases n - i,
        {
            let a = audio[i];
            let b = audio[i + p];
            proof {
                assert(-0x4000_0000 <= (a as int) * (b as int) <= 0x4000_0000) by (nonlinear_arith)
                    requires
                        -0x8000 <= a <= 0x7FFF,
                        -0x8000 <= b <= 0x7FFF,
                ;
                assert(0 <= (a as int) * (a as int) <= 0x4000_0000) by (nonlinear_arith)
                    requires
                        -0x8000 <= a <= 0x7FFF,
                ;
                assert(0 <= (b as int) * (b as int) <= 0x4000_0000) by (nonlinear_arith)
                    requires
                        -0x8000 <= b <= 0x7FFF,
                ;
                assert((i + 1) * 0x4000_0000 == (i as int) * 0x4000_0000 + 0x4000_0000) by (
                nonlinear_arith);
                assert((i as int) * 0x4000_0000 <= MAX_FRAME_SAMPLES * 0x4000_0000) by (
                nonlinear_arith)
                    requires
                        0 <= i <= MAX_FRAME_SAMPLES,
                ;
            }
            c = c + (a as i64) * (b as i64);
            n1 = n1 + ((a as i64) * (a as i64)) as u64;
            n2 = n2 + ((b as i64) * (b as i64)) as u64;
            i += 1;
        }
        let score: u128 = if c > 0 && n1 > 0 && n2 > 0 {
            proof {
                assert((n1 as int) * (n2 as int) >= 1) by (nonlinear_arith)
                    requires
                        n1 >= 1,
                        n2 >= 1,
                ;
                assert((n1 as int) * (n2 as int) <= 0xFFFF_FFFF_FFFF_FFFF * 0xFFFF_FFFF_FFFF_FFFF)
                    by (nonlinear_arith)
                    requires
                        n1 <= 0xFFFF_FFFF_FFFF_FFFFu64,
                        n2 <= 0xFFFF_FFFF_FFFF_FFFFu64,
                ;
            }
            let m = (n1 as u128) * (n2 as u128);
            let sq = isqrt128(m);
            proof {
                assert((m as int) < (sq as int + 1) * (sq as int + 1));
                assert(sq >= 1) by (nonlinear_arith)
                    requires
                        m as int >= 1,
                        (m as int) < (sq as int + 1) * (sq as int + 1),
                        sq >= 0,
                ;
            }
            ((c as u128) * 1_000_000) / (sq as u128)
        } else {
            0
        };
        proof {
            assert(score as int == spec_corr_ppm(audio@, p as int));
        }
        if score > best_ppm {
            best_ppm = score;
            best_period = p;
        }
        p += 1;
    }

    if best_period > 0 && best_ppm > 600_000 {
        let mhz = ((sample_rate as u64) * 1000) / (best_period as u64);
        if mhz > 0xFFFF_FFFF {
            u32::MAX
        } else {
            mhz as u32
        }
    } else {
        0
    }
}

/// Extract all per-frame features at once.
pub fn extract_features(audio: &[i16], sample_rate: u32) -> (r: AudioFeatures)
    requires
        audio@.len() <= MAX_FRAME_SAMPLES,
    ensures
        r.volume_db == spec_volume_mdb(audio@),
        r.pitch_hz == spec_pitch_mhz(audio@, sample_rate),
        r.spectral_centroid == spec_centroid_mhz(audio@, sample_rate),
        r.zero_crossing_rate == spec_zcr_permille(audio@),
{
    AudioFeatures {
        volume_db: calculate_volume(audio),
        pitch_hz: estimate_pitch(audio, sample_rate),
        spectral_centroid: calculate_spectral_centroid(audio, sample_rate),
        zero_crossing_rate: calculate_zero_crossing_rate(audio),
    }
}

} // verus!
