//! Voice isolation: a length-preserving per-frame transform. This
//! implementation applies a noise gate; samples at or below the threshold
//! are attenuated, louder samples pass through.

use vstd::prelude::*;
use vstd::string::StringExecFns;

use crate::error::AmwajError;
use crate::processor::spec_pcm_rescale;

verus! {

/// Voice isolation configuration.
#[derive(Debug, Clone)]
pub struct VoiceIsolationConfig {
    /// Path to the isolation model.
    pub model_path: String,
    /// Sample rate (default 16000).
    pub sample_rate: u32,
    /// Use the GPU for inference.
    pub use_gpu: bool,
    /// GPU device id.
    pub gpu_device_id: i32,
    /// Batch size for inference.
    pub batch_size: usize,
}

impl VoiceIsolationConfig {
    /// The defaults except for the model path.
    pub fn with_model_path(model_path: String) -> (r: Self)
        ensures
            r.model_path@ == model_path@,
            r.sample_rate == 16000,
            !r.use_gpu,
            r.gpu_device_id == 0,
            r.batch_size == 1,
    {
        VoiceIsolationConfig {
            model_path,
            sample_rate: 16000,
            use_gpu: false,
            gpu_device_id: 0,
            batch_size: 1,
        }
    }
}

impl Default for VoiceIsolationConfig {
    /// Default model path, 16 kHz, CPU inference, batch size 1.
    fn default() -> (r: Self)
        ensures
            r.model_path@ == "models/voice_isolation.onnx"@,
            r.sample_rate == 16000,
            !r.use_gpu,
            r.gpu_device_id == 0,
            r.batch_size == 1,
    {
        VoiceIsolationConfig {
            model_path: String::from_str("models/voice_isolation.onnx"),
            sample_rate: 16000,
            use_gpu: false,
            gpu_device_id: 0,
            batch_size: 1,
        }
    }
}

/// One sample through the enabled noise gate, in the i16 domain: a sample
/// whose float magnitude exceeds the 0.02 threshold (|s| >= 656) passes
/// through the usual float round trip, a quieter one is attenuated to a
/// tenth.
pub open spec fn spec_gate_sample(s: i16) -> int {
    if s >= 656 || s <= -656 {
        spec_pcm_rescale(s)
    } else if s < 0 {
        -((-(s as int) * 32767) / 327680)
    } else {
        ((s as int) * 32767) / 327680
    }
}

/// Voice isolation processor.
pub struct VoiceIsolation {
    config: VoiceIsolationConfig,
    enabled: bool,
    frames_processed: u64,
}

impl VoiceIsolation {
    pub closed spec fn spec_config(&self) -> VoiceIsolationConfig {
        self.config
    }

    pub closed spec fn spec_enabled(&self) -> bool {
        self.enabled
    }

    pub closed spec fn spec_frames_processed(&self) -> u64 {
        self.frames_processed
    }

    /// Processor for `model_path` with the default configuration.
    pub fn new(model_path: String) -> (r: Result<Self, AmwajError>)
        ensures
            r matches Ok(v) ==> {
                &&& v.spec_config().model_path@ == model_path@
                &&& v.spec_config().sample_rate == 16000
                &&& v.spec_enabled()
                &&& v.spec_frames_processed() == 0
            },
            r is Ok,
    {
        let config = VoiceIsolationConfig::with_model_path(model_path);
        Self::with_config(config)
    }

    /// Processor from a full configuration; starts enabled with a zeroed
    /// frame counter.
    pub fn with_config(config: VoiceIsolationConfig) -> (r: Result<Self, AmwajError>)
        ensures
            r matches Ok(v) ==> {
                &&& v.spec_config() == config
                &&& v.spec_enabled()
                &&& v.spec_frames_processed() == 0
            },
            r is Ok,
    {
        Ok(Self { config, enabled: true, frames_processed: 0 })
    }

    /// Processor for `model_path` at a custom sample rate.
    pub fn with_sample_rate(model_path: String, sample_rate: u32) -> (r: Result<Self, AmwajError>)
        ensures
            r matches Ok(v) ==> {
                &&& v.spec_config().model_path@ == model_path@
                &&& v.spec_config().sample_rate == sample_rate
                &&& v.spec_enabled()
                &&& v.spec_frames_processed() == 0
            },
            r is Ok,
    {
        let mut config = VoiceIsolationConfig::with_model_path(model_path);
        config.sample_rate = sample_rate;
        Self::with_config(config)
    }

    /// Process one i16 PCM frame through the noise filter.
    ///
    /// The output has the input's length. When enabled, each sample goes
    /// through the noise gate and the frame counter advances; when
    /// disabled, each sample only makes the float round trip.
    pub fn isolate_i16(&mut self, audio: &[i16]) -> (r: Result<Vec<i16>, AmwajError>)
        ensures
            r is Ok,
            final(self).spec_config() == old(self).spec_config(),
            final(self).spec_enabled() == old(self).spec_enabled(),
            final(self).spec_frames_processed() == (if old(self).spec_enabled() {
                old(self).spec_frames_processed().saturating_add(1)
            } else {
                old(self).spec_frames_processed()
            }),
            r matches Ok(out) ==> {
                &&& out@.len() == audio@.len()
                &&& (forall|i: int|
                    0 <= i < audio@.len() ==> (#[trigger] out@[i]) as int == (if old(
                        self,
                    ).spec_enabled() {
                        spec_gate_sample(audio@[i])
                    } else {
                        spec_pcm_rescale(audio@[i])
                    }))
            },
    {
        let enabled = self.enabled;
        if enabled {
            self.frames_processed = self.frames_processed.saturating_add(1);
        }
        let mut out: Vec<i16> = Vec::new();
        let mut i: usize = 0;
        while i < audio.len()
            invariant
                i <= audio@.len(),
                out@.len() == i,
                forall|j: int|
                    0 <= j < i ==> (#[trigger] out@[j]) as int == (if enabled {
                        spec_gate_sample(audio@[j])
                    } else {
                        spec_pcm_rescale(audio@[j])
                    }),
            decreases audio.len() - i,
        {
            let s = audio[i];
            let y = if enabled {
                gate_sample(s)
            } else {
                crate::processor::pcm_rescale(s)
            };
            out.push(y);
            i += 1;
        }
        Ok(out)
    }

    /// Enable or disable the noise filter.
    pub fn set_enabled(&mut self, enabled: bool)
        ensures
            final(self).spec_enabled() == enabled,
            final(self).spec_config() == old(self).spec_config(),
            final(self).spec_frames_processed() == old(self).spec_frames_processed(),
    {
        self.enabled = enabled;
    }

    /// Whether the noise filter is enabled.
    pub fn is_enabled(&self) -> (r: bool)
        ensures
            r == self.spec_enabled(),
    {
        self.enabled
    }

    /// The configured model path.
    pub fn model_path(&self) -> (r: &str)
        ensures
            r@ == self.spec_config().model_path@,
    {
        self.config.model_path.as_str()
    }

    /// Number of frames processed while enabled.
    pub fn frames_processed(&self) -> (r: u64)
        ensures
            r == self.spec_frames_processed(),
    {
        self.frames_processed
    }

    /// The configuration.
    pub fn config(&self) -> (r: &VoiceIsolationConfig)
        ensures
            *r == self.spec_config(),
    {
        &self.config
    }

    /// Zero the frame counter.
    pub fn reset(&mut self)
        ensures
            final(self).spec_frames_processed() == 0,
            final(self).spec_config() == old(self).spec_config(),
            final(self).spec_enabled() == old(self).spec_enabled(),
    {
        self.frames_processed = 0;
    }
}

/// One sample through the enabled gate.
fn gate_sample(s: i16) -> (r: i16)
    ensures
        r as int == spec_gate_sample(s),
{
    let a: i32 = if s < 0 {
        -(s as i32)
    } else {
        s as i32
    };
    if a >= 656 {
        crate::processor::pcm_rescale(s)
    } else {
        let q: i32 = (a * 32767) / 327680;
        proof {
            assert(0 <= (a as int * 32767) / 327680 <= a) by (nonlinear_arith)
                requires
                    0 <= a < 656,
            ;
        }
        let r: i32 = if s < 0 {
            -q
        } else {
            q
        };
        r as i16
    }
}

} // verus!
