//! Multi-signal fusion: weighted combination of VAD probability, loudness,
//! pitch plausibility and conversational context into one confidence score.

use vstd::prelude::*;

use crate::features::AudioFeatures;

verus! {

/// Conversational context supplied by the orchestrator.
#[derive(Debug, Clone, Copy, PartialEq, Eq, Structural)]
pub enum ConversationContext {
    /// The agent just asked something and expects the user to answer.
    ExpectingResponse,
    /// The user is already known to be speaking.
    UserSpeaking,
    /// The agent is composing a reply.
    Thinking,
    /// The agent is playing audio to the user.
    PlayingAudio,
}

/// Confidence level for a fused score.
#[derive(Debug, Clone, Copy, PartialEq, Eq, Structural)]
pub enum ConfidenceLevel {
    VeryLow,
    Low,
    Medium,
    High,
}

/// Context boost in per-mille: expecting a response raises the score,
/// agent-side activity lowers it.
pub open spec fn spec_context_boost(context: Option<ConversationContext>) -> int {
    match context {
        Some(ConversationContext::ExpectingResponse) => 200,
        Some(ConversationContext::UserSpeaking) => 100,
        Some(ConversationContext::Thinking) => -100,
        Some(ConversationContext::PlayingAudio) => -200,
        None => 0,
    }
}

/// Volume normalised to per-mille: -50 dB maps to 0 and 0 dB to 1000,
/// clamped at both ends.
pub open spec fn spec_volume_normalized(volume_db: i32) -> int {
    if volume_db <= -50_000 {
        0
    } else {
        let v = (volume_db + 50_000) / 50;
        if v > 1000 {
            1000
        } else {
            v
        }
    }
}

/// Pitch plausibility in per-mille: 1000 inside the human band of 50 Hz to
/// 400 Hz, 300 for any other detected pitch, 0 for none.
pub open spec fn spec_pitch_score(pitch_hz: u32) -> int {
    if pitch_hz > 50_000 && pitch_hz < 400_000 {
        1000
    } else if pitch_hz > 0 {
        300
    } else {
        0
    }
}

/// The fused confidence in per-mille: the weighted sum of the signals plus
/// the weighted context boost, clamped into [0, 1000].
pub open spec fn spec_fuse(
    vad_weight: u32,
    volume_weight: u32,
    pitch_weight: u32,
    context_weight: u32,
    vad_prob: u32,
    features: AudioFeatures,
    context: Option<ConversationContext>,
) -> int {
    let numerator = (vad_prob as int) * (vad_weight as int) + spec_volume_normalized(
        features.volume_db,
    ) * (volume_weight as int) + spec_pitch_score(features.pitch_hz) * (pitch_weight as int)
        + spec_context_boost(context) * (context_weight as int);
    if numerator < 0 {
        0
    } else if numerator > 1_000_000 {
        1000
    } else {
        numerator / 1000
    }
}

/// Multi-signal fusion with per-mille weights.
pub struct MultiSignalFusion {
    vad_weight: u32,
    volume_weight: u32,
    pitch_weight: u32,
    context_weight: u32,
}

impl MultiSignalFusion {
    pub closed spec fn spec_weights(&self) -> (u32, u32, u32, u32) {
        (self.vad_weight, self.volume_weight, self.pitch_weight, self.context_weight)
    }

    /// Default weights: 0.5 VAD, 0.3 volume, 0.1 pitch, 0.1 context.
    pub fn new() -> (r: Self)
        ensures
            r.spec_weights() == (500u32, 300u32, 100u32, 100u32),
    {
        Self { vad_weight: 500, volume_weight: 300, pitch_weight: 100, context_weight: 100 }
    }

    /// Custom per-mille weights.
    pub fn with_weights(vad: u32, volume: u32, pitch: u32, context: u32) -> (r: Self)
        ensures
            r.spec_weights() == (vad, volume, pitch, context),
    {
        Self { vad_weight: vad, volume_weight: volume, pitch_weight: pitch, context_weight: context }
    }

    /// Fuse the per-frame signals into one confidence score in per-mille.
    ///
    /// The result is always in [0, 1000].
    pub fn fuse_signals(
        &self,
        vad_prob: u32,
        features: &AudioFeatures,
        context: Option<ConversationContext>,
    ) -> (r: u32)
        ensures
            r == spec_fuse(
                self.spec_weights().0,
                self.spec_weights().1,
                self.spec_weights().2,
                self.spec_weights().3,
                vad_prob,
                *features,
                context,
            ),
            0 <= r <= 1000,
    {
        let volume_normalized: u64 = if features.volume_db <= -50_000 {
            0
        } else {
            let delta = ((features.volume_db as i64) + 50_000) as u64;
            let v = delta / 50;
            if v > 1000 {
                1000
            } else {
                v
            }
        };
        let pitch_score: u64 = if features.pitch_hz > 50_000 && features.pitch_hz < 400_000 {
            1000
        } else if features.pitch_hz > 0 {
            300
        } else {
            0
        };
        let context_boost: i64 = match context {
            Some(ConversationContext::ExpectingResponse) => 200,
            Some(ConversationContext::UserSpeaking) => 100,
            Some(ConversationContext::Thinking) => -100,
            Some(ConversationContext::PlayingAudio) => -200,
            None => 0,
        };
        proof {
            let w = self.spec_weights();
            assert((vad_prob as int) * (w.0 as int) <= 0xFFFF_FFFF * 0xFFFF_FFFF) by (
            nonlinear_arith)
                requires
                    0 <= vad_prob <= 0xFFFF_FFFFu32,
                    0 <= w.0 <= 0xFFFF_FFFFu32,
            ;
            assert((volume_normalized as int) * (w.1 as int) <= 1000 * 0xFFFF_FFFF) by (
            nonlinear_arith)
                requires
                    0 <= volume_normalized <= 1000,
                    0 <= w.1 <= 0xFFFF_FFFFu32,
            ;
            assert((pitch_score as int) * (w.2 as int) <= 1000 * 0xFFFF_FFFF) by (nonlinear_arith)
                requires
                    0 <= pitch_score <= 1000,
                    0 <= w.2 <= 0xFFFF_FFFFu32,
            ;
            assert(-200 * 0xFFFF_FFFF <= (context_boost as int) * (w.3 as int) <= 200
                * 0xFFFF_FFFF) by (nonlinear_arith)
                requires
                    -200 <= context_boost <= 200,
                    0 <= w.3 <= 0xFFFF_FFFFu32,
            ;
        }
        let numerator: i128 = (vad_prob as i128) * (self.vad_weight as i128) + (volume_normalized
            as i128) * (self.volume_weight as i128) + (pitch_score as i128) * (self.pitch_weight
            as i128) + (context_boost as i128) * (self.context_weight as i128);
        if numerator < 0 {
            0
        } else if numerator > 1_000_000 {
            1000
        } else {
            (numerator / 1000) as u32
        }
    }

    /// Classify a per-mille score: High at 0.8 and above, Medium at 0.5,
    /// Low at 0.2, VeryLow below.
    pub fn confidence_level(&self, score: u32) -> (r: ConfidenceLevel)
        ensures
            r == (if score >= 800 {
                ConfidenceLevel::High
            } else if score >= 500 {
                ConfidenceLevel::Medium
            } else if score >= 200 {
                ConfidenceLevel::Low
            } else {
                ConfidenceLevel::VeryLow
            }),
    {
        if score >= 800 {
            ConfidenceLevel::High
        } else if score >= 500 {
            ConfidenceLevel::Medium
        } else if score >= 200 {
            ConfidenceLevel::Low
        } else {
            ConfidenceLevel::VeryLow
        }
    }

    /// Replace the per-mille weights.
    pub fn set_weights(&mut self, vad: u32, volume: u32, pitch: u32, context: u32)
        ensures
            final(self).spec_weights() == (vad, volume, pitch, context),
    {
        self.vad_weight = vad;
        self.volume_weight = volume;
        self.pitch_weight = pitch;
        self.context_weight = context;
    }
}

impl Default for MultiSignalFusion {
    /// Same as `new`: the default per-mille weights.
    fn default() -> (r: Self)
        ensures
            r.spec_weights() == (500u32, 300u32, 100u32, 100u32),
    {
        Self::new()
    }
}

/// Fusion range law: whatever the weights, signals and context, the fused
/// confidence lies in [0, 1000] per-mille.
pub proof fn lemma_fusion_range(
    vad_weight: u32,
    volume_weight: u32,
    pitch_weight: u32,
    context_weight: u32,
    vad_prob: u32,
    features: AudioFeatures,
    context: Option<ConversationContext>,
)
    ensures
        0 <= spec_fuse(
            vad_weight,
            volume_weight,
            pitch_weight,
            context_weight,
            vad_prob,
            features,
            context,
        ) <= 1000,
{
}

} // verus!
