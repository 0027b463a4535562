//! Audio processing pipeline: sample-domain conversion, voice isolation,
//! feature extraction and VAD per frame.
//!
//! The float domain [-1, 1] of the audio contract maps to i16 by
//! `f = i / 32768` and `i = trunc(f * 32767)`; the composition of the two
//! is carried out here exactly on integers.

use vstd::prelude::*;

use crate::error::AmwajError;
use crate::features::{
    extract_features, spec_centroid_mhz, spec_pitch_mhz, spec_sum_squares, spec_volume_mdb,
    spec_zcr_permille, AudioFeatures, MAX_FRAME_SAMPLES,
};
use crate::vad::{spec_vad_raw_permille, spec_vad_smoothed, VoiceActivityDetector};
use crate::voice_isolation::{spec_gate_sample, VoiceIsolation};

verus! {

/// `trunc(a * 32767 / 32768)` for a non-negative magnitude `a`.
pub open spec fn spec_rescale_mag(a: int) -> int {
    (a * 32767) / 32768
}

/// A PCM sample taken to the float domain (`s / 32768`) and straight back
/// (`trunc(f * 32767)`), truncation toward zero.
pub open spec fn spec_pcm_rescale(s: i16) -> int {
    if s < 0 {
        -spec_rescale_mag(-(s as int))
    } else {
        spec_rescale_mag(s as int)
    }
}

/// Map one sample through the float domain and back: the round trip of the
/// audio contract's two conversions. The result is always within one least
/// significant bit of the input.
pub fn pcm_rescale(s: i16) -> (r: i16)
    ensures
        r as int == spec_pcm_rescale(s),
        s as int - 1 <= r as int <= s as int + 1,
{
    proof {
        lemma_pcm_round_trip_error(s);
    }
    let a: i32 = if s < 0 {
        -(s as i32)
    } else {
        s as i32
    };
    let q: i32 = (a * 32767) / 32768;
    let r: i32 = if s < 0 {
        -q
    } else {
        q
    };
    r as i16
}

/// PCM round-trip law: converting a sample to the float domain and back
/// changes it by at most one least significant bit.
pub proof fn lemma_pcm_round_trip_error(s: i16)
    ensures
        s as int - 1 <= spec_pcm_rescale(s) <= s as int + 1,
{
    let a: int = if s < 0 {
        -(s as int)
    } else {
        s as int
    };
    assert(0 <= a <= 32768);
    assert(a - 1 <= (a * 32767) / 32768 <= a) by (nonlinear_arith)
        requires
            0 <= a <= 32768,
    ;
}

/// Session-relative timestamp in ms after `frames` frames of `frame_size`
/// samples at `sample_rate`, saturating at `i64::MAX`; 0 for a zero rate.
pub open spec fn spec_timestamp_ms(frames: u64, frame_size: usize, sample_rate: u32) -> int {
    if sample_rate == 0 {
        0
    } else {
        let t = (frames as int) * (frame_size as int) * 1000 / (sample_rate as int);
        if t > i64::MAX as int {
            i64::MAX as int
        } else {
            t
        }
    }
}

/// One isolated sample of the processing chain: through the noise gate
/// when isolation is enabled, through the plain float round trip when an
/// isolator is present but disabled, untouched without one.
pub open spec fn spec_processed_sample(isolation: Option<VoiceIsolation>, s: i16) -> int {
    match isolation {
        Some(vi) => if vi.spec_enabled() {
            spec_gate_sample(s)
        } else {
            spec_pcm_rescale(s)
        },
        None => s as int,
    }
}

/// Result of processing one audio frame.
#[derive(Debug, Clone)]
pub struct ProcessedFrame {
    /// Processed PCM samples.
    pub pcm: Vec<i16>,
    /// Extracted audio features.
    pub features: AudioFeatures,
    /// Voice activity probability in per-mille.
    pub vad_probability: u32,
    /// Session-relative frame timestamp in ms.
    pub timestamp_ms: i64,
}

/// Per-session audio pipeline: optional voice isolation, feature
/// extraction and VAD on each frame.
pub struct AudioProcessor {
    sample_rate: u32,
    frame_size: usize,
    voice_isolation: Option<VoiceIsolation>,
    vad: VoiceActivityDetector,
    frames_processed: u64,
}

impl AudioProcessor {
    pub closed spec fn spec_sample_rate(&self) -> u32 {
        self.sample_rate
    }

    pub closed spec fn spec_frame_size(&self) -> usize {
        self.frame_size
    }

    pub closed spec fn spec_frames_processed(&self) -> u64 {
        self.frames_processed
    }

    pub closed spec fn spec_vad(&self) -> VoiceActivityDetector {
        self.vad
    }

    pub closed spec fn spec_isolation(&self) -> Option<VoiceIsolation> {
        self.voice_isolation
    }

    pub open spec fn wf(&self) -> bool {
        &&& self.spec_vad().wf()
        &&& self.spec_frame_size() <= MAX_FRAME_SAMPLES
    }

    /// Processor without voice isolation.
    pub fn new(sample_rate: u32, frame_size: usize) -> (r: Self)
        requires
            frame_size <= MAX_FRAME_SAMPLES,
        ensures
            r.wf(),
            r.spec_sample_rate() == sample_rate,
            r.spec_frame_size() == frame_size,
            r.spec_frames_processed() == 0,
            r.spec_isolation() is None,
            r.spec_vad().spec_sample_rate() == sample_rate,
            r.spec_vad().spec_previous_prob() == 0,
            r.spec_vad().spec_frame_count() == 0,
    {
        Self {
            sample_rate,
            frame_size,
            voice_isolation: None,
            vad: VoiceActivityDetector::new(sample_rate),
            frames_processed: 0,
        }
    }

    /// Processor with voice isolation enabled from the start.
    pub fn with_voice_isolation(sample_rate: u32, frame_size: usize, model_path: String) -> (r:
        Result<Self, AmwajError>)
        requires
            frame_size <= MAX_FRAME_SAMPLES,
        ensures
            r is Ok,
            r matches Ok(p) ==> {
                &&& p.wf()
                &&& p.spec_sample_rate() == sample_rate
                &&& p.spec_frame_size() == frame_size
                &&& p.spec_frames_processed() == 0
                &&& p.spec_isolation() matches Some(vi) && vi.spec_enabled()
            },
    {
        let vi = VoiceIsolation::new(model_path)?;
        Ok(
            Self {
                sample_rate,
                frame_size,
                voice_isolation: Some(vi),
                vad: VoiceActivityDetector::new(sample_rate),
                frames_processed: 0,
            },
        )
    }

    /// Process one PCM frame: isolate, extract features, run VAD, stamp.
    ///
    /// Always succeeds; the returned frame carries the isolated samples,
    /// their features, the smoothed VAD probability (in [0, 1000]) and the
    /// session-relative timestamp of the frame.
    pub fn process_frame(&mut self, pcm_data: &[i16]) -> (r: Result<ProcessedFrame, AmwajError>)
        requires
            old(self).wf(),
            pcm_data@.len() <= MAX_FRAME_SAMPLES,
        ensures
            final(self).wf(),
            r is Ok,
            final(self).spec_frames_processed() == old(self).spec_frames_processed().saturating_add(
                1,
            ),
            final(self).spec_sample_rate() == old(self).spec_sample_rate(),
            final(self).spec_frame_size() == old(self).spec_frame_size(),
            r matches Ok(f) ==> {
                &&& f.pcm@.len() == pcm_data@.len()
                &&& (forall|i: int|
                    0 <= i < pcm_data@.len() ==> (#[trigger] f.pcm@[i]) as int
                        == spec_processed_sample(old(self).spec_isolation(), pcm_data@[i]))
                &&& f.features.volume_db == spec_volume_mdb(f.pcm@)
                &&& f.features.pitch_hz == spec_pitch_mhz(f.pcm@, old(self).spec_sample_rate())
                &&& f.features.spectral_centroid == spec_centroid_mhz(
                    f.pcm@,
                    old(self).spec_sample_rate(),
                )
                &&& f.features.zero_crossing_rate == spec_zcr_permille(f.pcm@)
                &&& 0 <= f.vad_probability <= 1000
                &&& (pcm_data@.len() > 0 ==> f.vad_probability == spec_vad_smoothed(
                    spec_vad_raw_permille(
                        spec_sum_squares(f.pcm@),
                        f.pcm@.len() as int,
                        old(self).spec_vad().spec_threshold_ppb(),
                    ),
                    old(self).spec_vad().spec_smoothing(),
                    old(self).spec_vad().spec_previous_prob(),
                ))
                &&& (pcm_data@.len() == 0 ==> f.vad_probability == 0)
                &&& f.timestamp_ms == spec_timestamp_ms(
                    old(self).spec_frames_processed().saturating_add(1),
                    old(self).spec_frame_size(),
                    old(self).spec_sample_rate(),
                )
            },
    {
        self.frames_processed = self.frames_processed.saturating_add(1);

        let isolated: Vec<i16> = match &mut self.voice_isolation {
            Some(vi) => {
                match vi.isolate_i16(pcm_data) {
                    Ok(v) => v,
                    Err(e) => {
                        return Err(e);
                    },
                }
            },
            None => {
                let mut copy: Vec<i16> = Vec::new();
                let mut i: usize = 0;
                while i < pcm_data.len()
                    invariant
                        i <= pcm_data@.len(),
                        copy@ == pcm_data@.subrange(0, i as int),
                    decreases pcm_data.len() - i,
                {
                    copy.push(pcm_data[i]);
                    proof {
                        assert(copy@ =~= pcm_data@.subrange(0, i + 1));
                    }
                    i += 1;
                }
                proof {
                    assert(copy@ =~= pcm_data@);
                }
                copy
            },
        };

        let features = extract_features(isolated.as_slice(), self.sample_rate);
        let vad_prob = self.vad.process(isolated.as_slice());
        let timestamp_ms = self.calculate_timestamp();

        Ok(ProcessedFrame { pcm: isolated, features, vad_probability: vad_prob, timestamp_ms })
    }

    /// The configured sample rate.
    pub fn sample_rate(&self) -> (r: u32)
        ensures
            r == self.spec_sample_rate(),
    {
        self.sample_rate
    }

    /// The configured frame size in samples.
    pub fn frame_size(&self) -> (r: usize)
        ensures
            r == self.spec_frame_size(),
    {
        self.frame_size
    }

    /// Number of frames processed.
    pub fn frames_processed(&self) -> (r: u64)
        ensures
            r == self.spec_frames_processed(),
    {
        self.frames_processed
    }

    /// Reset the VAD state and the frame counter.
    pub fn reset(&mut self)
        requires
            old(self).wf(),
        ensures
            final(self).wf(),
            final(self).spec_frames_processed() == 0,
            final(self).spec_vad().spec_previous_prob() == 0,
            final(self).spec_vad().spec_frame_count() == 0,
            final(self).spec_sample_rate() == old(self).spec_sample_rate(),
            final(self).spec_frame_size() == old(self).spec_frame_size(),
            final(self).spec_isolation() == old(self).spec_isolation(),
    {
        self.vad.reset();
        self.frames_processed = 0;
    }

    /// Enable or disable voice isolation, when an isolator is present.
    pub fn set_voice_isolation_enabled(&mut self, enabled: bool)
        ensures
            old(self).wf() ==> final(self).wf(),
            final(self).spec_frames_processed() == old(self).spec_frames_processed(),
            final(self).spec_sample_rate() == old(self).spec_sample_rate(),
            final(self).spec_frame_size() == old(self).spec_frame_size(),
            final(self).spec_vad() == old(self).spec_vad(),
            old(self).spec_isolation() is None ==> final(self).spec_isolation() is None,
            old(self).spec_isolation() matches Some(_) ==> (final(self).spec_isolation()
                matches Some(vi) && vi.spec_enabled() == enabled),
    {
        match &mut self.voice_isolation {
            Some(vi) => {
                vi.set_enabled(enabled);
            },
            None => {},
        }
    }

    fn calculate_timestamp(&self) -> (r: i64)
        requires
            self.spec_frame_size() <= MAX_FRAME_SAMPLES,
        ensures
            r == spec_timestamp_ms(
                self.spec_frames_processed(),
                self.spec_frame_size(),
                self.spec_sample_rate(),
            ),
    {
        if self.sample_rate == 0 {
            return 0;
        }
        proof {
            assert((self.frames_processed as int) * (self.frame_size as int) <= 0xFFFF_FFFF_FFFF_FFFF
                * 0x20000) by (nonlinear_arith)
                requires
                    self.frames_processed <= 0xFFFF_FFFF_FFFF_FFFFu64,
                    0 <= self.frame_size as int <= 0x20000,
            ;
        }
        let t: u128 = ((self.frames_processed as u128) * (self.frame_size as u128) * 1000) / (
        self.sample_rate as u128);
        if t > i64::MAX as u128 {
            i64::MAX
        } else {
            t as i64
        }
    }
}

} // verus!
