//! Energy-based voice activity detection with temporal smoothing.
//!
//! Probabilities are per-mille; frame energies live in parts per billion of
//! full scale (the mean square of float samples in [-1, 1], scaled by 1e9).

use vstd::prelude::*;

use crate::features::{spec_sum_squares, sum_squares, MAX_FRAME_SAMPLES};
use crate::fixed_point::{lemma_log2_fixed_range, log2_fixed, spec_log2_fixed};

verus! {

/// The default energy threshold: 0.001 of full scale, in parts per billion.
pub const DEFAULT_ENERGY_THRESHOLD_PPB: u64 = 1_000_000;

/// Raw per-frame probability in per-mille from the frame energy: 0 at or
/// below the threshold, else the natural logarithm of the energy ratio
/// over 5, through the fixed-point base-2 logarithm (ln 2 = 693147/1e6),
/// clamped at 1. `sum_sq` is the sum of squared i16 samples of the `n`
/// samples; the energy ratio compares `sum_sq * 1e9` with
/// `threshold * n * 2^30`.
pub open spec fn spec_vad_raw_permille(sum_sq: int, n: int, threshold_ppb: u64) -> int {
    if n <= 0 || sum_sq <= 0 {
        0
    } else if threshold_ppb == 0 {
        1000
    } else if sum_sq * 1_000_000_000 <= (threshold_ppb as int) * n * 0x4000_0000 {
        0
    } else {
        let ratio = sum_sq * 1_000_000_000 / ((threshold_ppb as int) * n * 0x4000_0000);
        let capped = if ratio > u64::MAX as int {
            u64::MAX as int
        } else {
            ratio
        };
        let scaled = spec_log2_fixed(capped as u64) * 693147 / 5_120_000;
        if scaled > 1000 {
            1000
        } else {
            scaled
        }
    }
}

/// Exponential smoothing: `alpha * raw + (1 - alpha) * previous`, all in
/// per-mille.
pub open spec fn spec_vad_smoothed(raw: int, alpha: u32, previous: u32) -> int {
    ((alpha as int) * raw + (1000 - alpha as int) * (previous as int)) / 1000
}

/// Energy-based voice activity detector for one session.
pub struct VoiceActivityDetector {
    sample_rate: u32,
    energy_threshold_ppb: u64,
    smoothing_factor: u32,
    previous_prob: u32,
    frame_count: u64,
}

impl VoiceActivityDetector {
    pub closed spec fn spec_sample_rate(&self) -> u32 {
        self.sample_rate
    }

    pub closed spec fn spec_threshold_ppb(&self) -> u64 {
        self.energy_threshold_ppb
    }

    pub closed spec fn spec_smoothing(&self) -> u32 {
        self.smoothing_factor
    }

    pub closed spec fn spec_previous_prob(&self) -> u32 {
        self.previous_prob
    }

    pub closed spec fn spec_frame_count(&self) -> u64 {
        self.frame_count
    }

    /// The stored probability and the smoothing factor stay in per-mille.
    pub open spec fn wf(&self) -> bool {
        &&& self.spec_previous_prob() <= 1000
        &&& self.spec_smoothing() <= 1000
    }

    /// Detector with the default threshold (0.001) and smoothing (0.7).
    pub fn new(sample_rate: u32) -> (r: Self)
        ensures
            r.wf(),
            r.spec_sample_rate() == sample_rate,
            r.spec_threshold_ppb() == DEFAULT_ENERGY_THRESHOLD_PPB,
            r.spec_smoothing() == 700,
            r.spec_previous_prob() == 0,
            r.spec_frame_count() == 0,
    {
        Self {
            sample_rate,
            energy_threshold_ppb: DEFAULT_ENERGY_THRESHOLD_PPB,
            smoothing_factor: 700,
            previous_prob: 0,
            frame_count: 0,
        }
    }

    /// Detector with a custom energy threshold in parts per billion.
    pub fn with_threshold(sample_rate: u32, threshold_ppb: u64) -> (r: Self)
        ensures
            r.wf(),
            r.spec_sample_rate() == sample_rate,
            r.spec_threshold_ppb() == threshold_ppb,
            r.spec_smoothing() == 700,
            r.spec_previous_prob() == 0,
            r.spec_frame_count() == 0,
    {
        Self {
            sample_rate,
            energy_threshold_ppb: threshold_ppb,
            smoothing_factor: 700,
            previous_prob: 0,
            frame_count: 0,
        }
    }

    /// Process one PCM frame and return the smoothed voice probability in
    /// per-mille. The result is always in [0, 1000]. An empty frame yields
    /// 0 and leaves the state untouched; otherwise the smoothed value is
    /// stored and the frame counter advances.
    pub fn process(&mut self, audio: &[i16]) -> (r: u32)
        requires
            old(self).wf(),
            audio@.len() <= MAX_FRAME_SAMPLES,
        ensures
            final(self).wf(),
            0 <= r <= 1000,
            final(self).spec_sample_rate() == old(self).spec_sample_rate(),
            final(self).spec_threshold_ppb() == old(self).spec_threshold_ppb(),
            final(self).spec_smoothing() == old(self).spec_smoothing(),
            audio@.len() == 0 ==> r == 0 && *final(self) == *old(self),
            audio@.len() > 0 ==> {
                &&& r == spec_vad_smoothed(
                    spec_vad_raw_permille(
                        spec_sum_squares(audio@),
                        audio@.len() as int,
                        old(self).spec_threshold_ppb(),
                    ),
                    old(self).spec_smoothing(),
                    old(self).spec_previous_prob(),
                )
                &&& final(self).spec_previous_prob() == r
                &&& final(self).spec_frame_count() == old(self).spec_frame_count().saturating_add(
                    1,
                )
            },
    {
        if audio.len() == 0 {
            return 0;
        }
        self.frame_count = self.frame_count.saturating_add(1);

        let sum_sq = sum_squares(audio);
        let raw = raw_permille(sum_sq, audio.len(), self.energy_threshold_ppb);
        let alpha = self.smoothing_factor;
        proof {
            assert((alpha as int) * (raw as int) + (1000 - alpha as int) * (
            self.previous_prob as int) <= 1000 * 1000) by (nonlinear_arith)
                requires
                    0 <= raw <= 1000,
                    0 <= alpha <= 1000,
                    0 <= self.previous_prob <= 1000,
            ;
            assert((alpha as int) * (raw as int) + (1000 - alpha as int) * (
            self.previous_prob as int) >= 0) by (nonlinear_arith)
                requires
                    0 <= raw <= 1000,
                    0 <= alpha <= 1000,
                    0 <= self.previous_prob <= 1000,
            ;
        }
        let smoothed = (((alpha as u64) * (raw as u64) + ((1000 - alpha) as u64)
            * (self.previous_prob as u64)) / 1000) as u32;
        self.previous_prob = smoothed;
        smoothed
    }

    /// Process an i16 PCM frame (same as `process`).
    pub fn process_i16(&mut self, audio: &[i16]) -> (r: u32)
        requires
            old(self).wf(),
            audio@.len() <= MAX_FRAME_SAMPLES,
        ensures
            final(self).wf(),
            0 <= r <= 1000,
            audio@.len() > 0 ==> r == spec_vad_smoothed(
                spec_vad_raw_permille(
                    spec_sum_squares(audio@),
                    audio@.len() as int,
                    old(self).spec_threshold_ppb(),
                ),
                old(self).spec_smoothing(),
                old(self).spec_previous_prob(),
            ),
            audio@.len() == 0 ==> r == 0 && *final(self) == *old(self),
    {
        self.process(audio)
    }

    /// Forget the smoothed probability and the frame count.
    pub fn reset(&mut self)
        requires
            old(self).wf(),
        ensures
            final(self).wf(),
            final(self).spec_previous_prob() == 0,
            final(self).spec_frame_count() == 0,
            final(self).spec_sample_rate() == old(self).spec_sample_rate(),
            final(self).spec_threshold_ppb() == old(self).spec_threshold_ppb(),
            final(self).spec_smoothing() == old(self).spec_smoothing(),
    {
        self.previous_prob = 0;
        self.frame_count = 0;
    }

    /// The configured sample rate.
    pub fn sample_rate(&self) -> (r: u32)
        ensures
            r == self.spec_sample_rate(),
    {
        self.sample_rate
    }

    /// Number of non-empty frames processed.
    pub fn frames_processed(&self) -> (r: u64)
        ensures
            r == self.spec_frame_count(),
    {
        self.frame_count
    }

    /// Set the threshold to twice the measured noise floor (parts per
    /// billion), saturating at the top of the range.
    pub fn adapt_threshold(&mut self, noise_floor_ppb: u64)
        ensures
            final(self).spec_threshold_ppb() == (if noise_floor_ppb > u64::MAX / 2 {
                u64::MAX
            } else {
                (2 * noise_floor_ppb) as u64
            }),
            final(self).spec_sample_rate() == old(self).spec_sample_rate(),
            final(self).spec_smoothing() == old(self).spec_smoothing(),
            final(self).spec_previous_prob() == old(self).spec_previous_prob(),
            final(self).spec_frame_count() == old(self).spec_frame_count(),
            old(self).wf() ==> final(self).wf(),
    {
        self.energy_threshold_ppb = if noise_floor_ppb > u64::MAX / 2 {
            u64::MAX
        } else {
            2 * noise_floor_ppb
        };
    }
}

/// The raw energy probability in per-mille.
fn raw_permille(sum_sq: u64, n: usize, threshold_ppb: u64) -> (r: u32)
    requires
        1 <= n <= MAX_FRAME_SAMPLES,
    ensures
        r == spec_vad_raw_permille(sum_sq as int, n as int, threshold_ppb),
        r <= 1000,
{
    if sum_sq == 0 {
        return 0;
    }
    if threshold_ppb == 0 {
        return 1000;
    }
    let num: u128 = (sum_sq as u128) * 1_000_000_000;
    proof {
        assert((sum_sq as int) * 1_000_000_000 <= 0xFFFF_FFFF_FFFF_FFFF * 1_000_000_000) by (
        nonlinear_arith)
            requires
                sum_sq <= 0xFFFF_FFFF_FFFF_FFFFu64,
        ;
        assert((threshold_ppb as int) * (n as int) <= 0xFFFF_FFFF_FFFF_FFFF * 0x20000) by (
        nonlinear_arith)
            requires
                threshold_ppb <= 0xFFFF_FFFF_FFFF_FFFFu64,
                0 <= n as int <= 0x20000,
        ;
        assert((threshold_ppb as int) * (n as int) * 0x4000_0000 >= 1) by (nonlinear_arith)
            requires
                threshold_ppb >= 1,
                n >= 1,
        ;
    }
    let den_a: u128 = (threshold_ppb as u128) * (n as u128);
    proof {
        assert(den_a * 0x4000_0000 < 0x1_0000_0000_0000_0000_0000_0000_0000_0000) by (
        nonlinear_arith)
            requires
                den_a <= 0xFFFF_FFFF_FFFF_FFFF * 0x20000u128,
        ;
        assert(den_a * 0x4000_0000 == (threshold_ppb as int) * (n as int) * 0x4000_0000);
    }
    let den: u128 = den_a * 0x4000_0000;
    if num <= den {
        return 0;
    }
    let ratio: u128 = num / den;
    let capped: u64 = if ratio > 0xFFFF_FFFF_FFFF_FFFF {
        u64::MAX
    } else {
        ratio as u64
    };
    proof {
        vstd::arithmetic::div_mod::lemma_div_non_zero(num as int, den as int);
        assert(capped >= 1);
        lemma_log2_fixed_range(capped);
    }
    let scaled = (log2_fixed(capped) * 693147) / 5_120_000;
    if scaled > 1000 {
        1000
    } else {
        scaled as u32
    }
}

/// VAD range law: for any frame energy, threshold, smoothing factor and
/// stored probability in range, the smoothed probability stays in
/// [0, 1000] per-mille.
pub proof fn lemma_vad_range(sum_sq: int, n: int, threshold_ppb: u64, alpha: u32, previous: u32)
    requires
        alpha <= 1000,
        previous <= 1000,
    ensures
        0 <= spec_vad_smoothed(
            spec_vad_raw_permille(sum_sq, n, threshold_ppb),
            alpha,
            previous,
        ) <= 1000,
{
    let raw = spec_vad_raw_permille(sum_sq, n, threshold_ppb);
    if !(n <= 0 || sum_sq <= 0) && threshold_ppb != 0 && sum_sq * 1_000_000_000 > (
    threshold_ppb as int) * n * 0x4000_0000 {
        let ratio = sum_sq * 1_000_000_000 / ((threshold_ppb as int) * n * 0x4000_0000);
        let capped = if ratio > u64::MAX as int {
            u64::MAX as int
        } else {
            ratio
        };
        assert((threshold_ppb as int) * n * 0x4000_0000 >= 1) by (nonlinear_arith)
            requires
                threshold_ppb >= 1,
                n >= 1,
        ;
        vstd::arithmetic::div_mod::lemma_div_non_zero(
            sum_sq * 1_000_000_000,
            (threshold_ppb as int) * n * 0x4000_0000,
        );
        assert(ratio >= 1);
        assert(capped >= 1);
        lemma_log2_fixed_range(capped as u64);
    }
    assert(0 <= raw <= 1000);
    assert(0 <= (alpha as int) * raw + (1000 - alpha as int) * (previous as int) <= 1000 * 1000) by (
    nonlinear_arith)
        requires
            0 <= raw <= 1000,
            0 <= alpha <= 1000,
            0 <= previous <= 1000,
    ;
}

} // verus!
