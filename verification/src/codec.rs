//! Opus codec facade: decode yields one fixed-length PCM frame per payload
//! (silence in this stub), with packet-loss concealment on missing input.

use vstd::prelude::*;

use crate::error::AmwajError;

verus! {

/// Sample rates the codec accepts.
pub open spec fn valid_opus_rate(rate: u32) -> bool {
    rate == 8000 || rate == 12000 || rate == 16000 || rate == 24000 || rate == 48000
}

/// Opus codec configuration.
#[derive(Debug, Clone, PartialEq, Eq, Structural)]
pub struct OpusConfig {
    /// Sample rate (8000, 12000, 16000, 24000 or 48000).
    pub sample_rate: u32,
    /// Number of channels (1 = mono, 2 = stereo).
    pub channels: u8,
    /// Target bitrate in bits per second.
    pub bitrate: u32,
    /// Encoder complexity (0-10).
    pub complexity: u8,
    /// Enable discontinuous transmission.
    pub use_dtx: bool,
    /// Enable forward error correction.
    pub use_fec: bool,
    /// Frame size in samples.
    pub frame_size: usize,
}

impl Default for OpusConfig {
    /// Voice defaults: mono 16 kHz, 28 kbps, high complexity, DTX and FEC
    /// on, 20 ms frames.
    fn default() -> (r: Self)
        ensures
            r == (OpusConfig {
                sample_rate: 16000,
                channels: 1,
                bitrate: 28000,
                complexity: 9,
                use_dtx: true,
                use_fec: true,
                frame_size: 320,
            }),
    {
        OpusConfig {
            sample_rate: 16000,
            channels: 1,
            bitrate: 28000,
            complexity: 9,
            use_dtx: true,
            use_fec: true,
            frame_size: 320,
        }
    }
}

/// Samples in one 20 ms frame at `rate`, times `channels`.
pub open spec fn spec_frame_samples(rate: u32, channels: u8) -> int {
    ((rate / 50) as int) * (channels as int)
}

/// Opus decoder for one session.
pub struct OpusDecoder {
    sample_rate: u32,
    channels: u8,
    frames_decoded: u64,
}

impl OpusDecoder {
    pub closed spec fn spec_sample_rate(&self) -> u32 {
        self.sample_rate
    }

    pub closed spec fn spec_channels(&self) -> u8 {
        self.channels
    }

    pub closed spec fn spec_frames_decoded(&self) -> u64 {
        self.frames_decoded
    }

    /// A valid rate and one or two channels.
    pub open spec fn wf(&self) -> bool {
        &&& valid_opus_rate(self.spec_sample_rate())
        &&& 1 <= self.spec_channels() <= 2
    }

    /// Mono decoder at `sample_rate`.
    pub fn new(sample_rate: u32) -> (r: Self)
        requires
            valid_opus_rate(sample_rate),
        ensures
            r.wf(),
            r.spec_sample_rate() == sample_rate,
            r.spec_channels() == 1,
            r.spec_frames_decoded() == 0,
    {
        Self { sample_rate, channels: 1, frames_decoded: 0 }
    }

    /// Decoder from a configuration; rejects an invalid sample rate or
    /// channel count with `ConfigInvalid`.
    pub fn with_config(config: &OpusConfig) -> (r: Result<Self, AmwajError>)
        ensures
            r is Ok <==> (valid_opus_rate(config.sample_rate) && 1 <= config.channels <= 2),
            r matches Ok(d) ==> {
                &&& d.wf()
                &&& d.spec_sample_rate() == config.sample_rate
                &&& d.spec_channels() == config.channels
                &&& d.spec_frames_decoded() == 0
            },
            r matches Err(e) ==> e == AmwajError::ConfigInvalid,
    {
        let rate_ok = config.sample_rate == 8000 || config.sample_rate == 12000
            || config.sample_rate == 16000 || config.sample_rate == 24000 || config.sample_rate
            == 48000;
        if !rate_ok || config.channels < 1 || config.channels > 2 {
            return Err(AmwajError::ConfigInvalid);
        }
        Ok(Self { sample_rate: config.sample_rate, channels: config.channels, frames_decoded: 0 })
    }

    /// Decode one Opus payload to one 20 ms PCM frame (silence in this
    /// stub). Fails with `EmptyPayload` on empty input, leaving the state
    /// unchanged.
    pub fn decode(&mut self, opus_data: &[u8]) -> (r: Result<Vec<i16>, AmwajError>)
        requires
            old(self).wf(),
        ensures
            final(self).wf(),
            final(self).spec_sample_rate() == old(self).spec_sample_rate(),
            final(self).spec_channels() == old(self).spec_channels(),
            r is Ok <==> opus_data@.len() > 0,
            r matches Ok(pcm) ==> {
                &&& pcm@ == Seq::new(
                    spec_frame_samples(
                        old(self).spec_sample_rate(),
                        old(self).spec_channels(),
                    ) as nat,
                    |i: int| 0i16,
                )
                &&& final(self).spec_frames_decoded() == old(
                    self,
                ).spec_frames_decoded().saturating_add(1)
            },
            r matches Err(e) ==> {
                &&& e == AmwajError::EmptyPayload
                &&& final(self).spec_frames_decoded() == old(self).spec_frames_decoded()
            },
    {
        if opus_data.len() == 0 {
            return Err(AmwajError::EmptyPayload);
        }
        self.frames_decoded = self.frames_decoded.saturating_add(1);
        let samples_per_frame = (self.sample_rate / 50) as usize;
        proof {
            assert(samples_per_frame * (self.channels as usize) <= 1920) by (nonlinear_arith)
                requires
                    0 <= samples_per_frame <= 960,
                    0 <= self.channels <= 2,
            ;
        }
        let total = samples_per_frame * (self.channels as usize);
        let pcm = vec![0i16; total];
        Ok(pcm)
    }

    /// Decode with forward error correction: a missing payload yields a
    /// packet-loss-concealment frame of the same fixed length.
    pub fn decode_fec(&mut self, opus_data: Option<&[u8]>) -> (r: Result<Vec<i16>, AmwajError>)
        requires
            old(self).wf(),
        ensures
            final(self).wf(),
            final(self).spec_sample_rate() == old(self).spec_sample_rate(),
            final(self).spec_channels() == old(self).spec_channels(),
            r is Ok <==> (opus_data matches Some(d) ==> d@.len() > 0),
            r matches Ok(pcm) ==> pcm@ == Seq::new(
                spec_frame_samples(old(self).spec_sample_rate(), old(self).spec_channels()) as nat,
                |i: int| 0i16,
            ),
            r matches Err(e) ==> {
                &&& e == AmwajError::EmptyPayload
                &&& final(self).spec_frames_decoded() == old(self).spec_frames_decoded()
            },
            opus_data is None ==> final(self).spec_frames_decoded() == old(
                self,
            ).spec_frames_decoded(),
    {
        match opus_data {
            Some(data) => self.decode(data),
            None => {
                let samples_per_frame = (self.sample_rate / 50) as usize;
                proof {
                    assert(samples_per_frame * (self.channels as usize) <= 1920) by (
                    nonlinear_arith)
                        requires
                            0 <= samples_per_frame <= 960,
                            0 <= self.channels <= 2,
                    ;
                }
                let total = samples_per_frame * (self.channels as usize);
                Ok(vec![0i16; total])
            },
        }
    }

    /// The configured sample rate.
    pub fn sample_rate(&self) -> (r: u32)
        ensures
            r == self.spec_sample_rate(),
    {
        self.sample_rate
    }

    /// Number of frames decoded so far.
    pub fn frames_decoded(&self) -> (r: u64)
        ensures
            r == self.spec_frames_decoded(),
    {
        self.frames_decoded
    }

    /// Zero the decoded-frame counter.
    pub fn reset(&mut self)
        ensures
            final(self).spec_frames_decoded() == 0,
            final(self).spec_sample_rate() == old(self).spec_sample_rate(),
            final(self).spec_channels() == old(self).spec_channels(),
            old(self).wf() ==> final(self).wf(),
    {
        self.frames_decoded = 0;
    }
}

/// Opus encoder for one session.
pub struct OpusEncoder {
    config: OpusConfig,
    frames_encoded: u64,
    adaptive_bitrate_enabled: bool,
    current_bitrate: u32,
}

/// Encoded bytes for one 20 ms frame at `bitrate`, floored at 10.
pub open spec fn spec_encoded_frame_bytes(bitrate: u32) -> int {
    vstd::math::max((bitrate / 8 / 50) as int, 10)
}

/// The bitrate `adapt_bitrate` settles on: the configured bitrate scaled by
/// the loss factor, capped at 80% of the available bandwidth, clamped into
/// the valid Opus range of 6 kbps to 510 kbps.
pub open spec fn spec_adapted_bitrate(
    configured: u32,
    packet_loss_permille: u32,
    available_bandwidth_kbps: u32,
) -> u32 {
    let factor: int = if packet_loss_permille > 100 {
        700
    } else if packet_loss_permille > 50 {
        850
    } else {
        1000
    };
    let scaled = (configured as int) * factor / 1000;
    let cap = (available_bandwidth_kbps as int) * 800;
    let target = vstd::math::min(scaled, cap);
    if target < 6000 {
        6000u32
    } else if target > 510_000 {
        510_000u32
    } else {
        target as u32
    }
}

impl OpusEncoder {
    pub closed spec fn spec_config(&self) -> OpusConfig {
        self.config
    }

    pub closed spec fn spec_frames_encoded(&self) -> u64 {
        self.frames_encoded
    }

    pub closed spec fn spec_adaptive_enabled(&self) -> bool {
        self.adaptive_bitrate_enabled
    }

    pub closed spec fn spec_current_bitrate(&self) -> u32 {
        self.current_bitrate
    }

    /// Encoder at `sample_rate` with the default voice configuration.
    pub fn new(sample_rate: u32) -> (r: Self)
        ensures
            r.spec_config() == (OpusConfig {
                sample_rate,
                channels: 1,
                bitrate: 28000,
                complexity: 9,
                use_dtx: true,
                use_fec: true,
                frame_size: 320,
            }),
            r.spec_frames_encoded() == 0,
            !r.spec_adaptive_enabled(),
            r.spec_current_bitrate() == 28000,
    {
        let config = OpusConfig {
            sample_rate,
            channels: 1,
            bitrate: 28000,
            complexity: 9,
            use_dtx: true,
            use_fec: true,
            frame_size: 320,
        };
        Self {
            current_bitrate: config.bitrate,
            config,
            frames_encoded: 0,
            adaptive_bitrate_enabled: false,
        }
    }

    /// Encoder from an explicit configuration.
    pub fn with_config(config: OpusConfig) -> (r: Result<Self, AmwajError>)
        ensures
            r matches Ok(e) ==> {
                &&& e.spec_config() == config
                &&& e.spec_frames_encoded() == 0
                &&& !e.spec_adaptive_enabled()
                &&& e.spec_current_bitrate() == config.bitrate
            },
            r is Ok,
    {
        Ok(
            Self {
                current_bitrate: config.bitrate,
                config,
                frames_encoded: 0,
                adaptive_bitrate_enabled: false,
            },
        )
    }

    /// Encode one PCM frame; the stub yields a placeholder payload whose
    /// size tracks the current bitrate. Fails with `EmptyPayload` on empty
    /// input, leaving the state unchanged.
    pub fn encode(&mut self, pcm_data: &[i16]) -> (r: Result<Vec<u8>, AmwajError>)
        ensures
            final(self).spec_config() == old(self).spec_config(),
            final(self).spec_adaptive_enabled() == old(self).spec_adaptive_enabled(),
            final(self).spec_current_bitrate() == old(self).spec_current_bitrate(),
            r is Ok <==> pcm_data@.len() > 0,
            r matches Ok(bytes) ==> {
                &&& bytes@ == Seq::new(
                    spec_encoded_frame_bytes(old(self).spec_current_bitrate()) as nat,
                    |i: int| 0xFFu8,
                )
                &&& final(self).spec_frames_encoded() == old(
                    self,
                ).spec_frames_encoded().saturating_add(1)
            },
            r matches Err(e) ==> {
                &&& e == AmwajError::EmptyPayload
                &&& final(self).spec_frames_encoded() == old(self).spec_frames_encoded()
            },
    {
        if pcm_data.len() == 0 {
            return Err(AmwajError::EmptyPayload);
        }
        self.frames_encoded = self.frames_encoded.saturating_add(1);
        let bytes_per_frame = (self.current_bitrate / 8 / 50) as usize;
        let n = if bytes_per_frame < 10 {
            10
        } else {
            bytes_per_frame
        };
        Ok(vec![0xFFu8; n])
    }

    /// Let `adapt_bitrate` move the current bitrate.
    pub fn enable_adaptive_bitrate(&mut self)
        ensures
            final(self).spec_adaptive_enabled(),
            final(self).spec_config() == old(self).spec_config(),
            final(self).spec_frames_encoded() == old(self).spec_frames_encoded(),
            final(self).spec_current_bitrate() == old(self).spec_current_bitrate(),
    {
        self.adaptive_bitrate_enabled = true;
    }

    /// Stop adapting and return to the configured bitrate.
    pub fn disable_adaptive_bitrate(&mut self)
        ensures
            !final(self).spec_adaptive_enabled(),
            final(self).spec_current_bitrate() == old(self).spec_config().bitrate,
            final(self).spec_config() == old(self).spec_config(),
            final(self).spec_frames_encoded() == old(self).spec_frames_encoded(),
    {
        self.adaptive_bitrate_enabled = false;
        self.current_bitrate = self.config.bitrate;
    }

    /// Adapt the bitrate to loss (per-mille) and available bandwidth
    /// (kbps): heavy loss scales the configured bitrate down, the result is
    /// capped at 80% of the bandwidth and clamped into 6-510 kbps. Does
    /// nothing while adaptation is disabled.
    pub fn adapt_bitrate(&mut self, packet_loss_permille: u32, available_bandwidth_kbps: u32)
        ensures
            final(self).spec_config() == old(self).spec_config(),
            final(self).spec_frames_encoded() == old(self).spec_frames_encoded(),
            final(self).spec_adaptive_enabled() == old(self).spec_adaptive_enabled(),
            !old(self).spec_adaptive_enabled() ==> final(self).spec_current_bitrate() == old(
                self,
            ).spec_current_bitrate(),
            old(self).spec_adaptive_enabled() ==> final(self).spec_current_bitrate()
                == spec_adapted_bitrate(
                old(self).spec_config().bitrate,
                packet_loss_permille,
                available_bandwidth_kbps,
            ),
    {
        if !self.adaptive_bitrate_enabled {
            return ;
        }
        let factor: u64 = if packet_loss_permille > 100 {
            700
        } else if packet_loss_permille > 50 {
            850
        } else {
            1000
        };
        let scaled = ((self.config.bitrate as u64) * factor) / 1000;
        let cap = (available_bandwidth_kbps as u64) * 800;
        let target = if scaled < cap {
            scaled
        } else {
            cap
        };
        self.current_bitrate = if target < 6000 {
            6000
        } else if target > 510_000 {
            510_000
        } else {
            target as u32
        };
    }

    /// The bitrate currently in force.
    pub fn current_bitrate(&self) -> (r: u32)
        ensures
            r == self.spec_current_bitrate(),
    {
        self.current_bitrate
    }

    /// Number of frames encoded so far.
    pub fn frames_encoded(&self) -> (r: u64)
        ensures
            r == self.spec_frames_encoded(),
    {
        self.frames_encoded
    }

    /// The encoder configuration.
    pub fn config(&self) -> (r: &OpusConfig)
        ensures
            *r == self.spec_config(),
    {
        &self.config
    }

    /// Zero the frame counter and return to the configured bitrate.
    pub fn reset(&mut self)
        ensures
            final(self).spec_frames_encoded() == 0,
            final(self).spec_current_bitrate() == old(self).spec_config().bitrate,
            final(self).spec_config() == old(self).spec_config(),
            final(self).spec_adaptive_enabled() == old(self).spec_adaptive_enabled(),
    {
        self.frames_encoded = 0;
        self.current_bitrate = self.config.bitrate;
    }
}

/// Combined codec manager holding one encoder and one decoder.
pub struct OpusCodecManager {
    encoder: OpusEncoder,
    decoder: OpusDecoder,
}

impl OpusCodecManager {
    pub closed spec fn spec_encoder(&self) -> OpusEncoder {
        self.encoder
    }

    pub closed spec fn spec_decoder(&self) -> OpusDecoder {
        self.decoder
    }

    pub open spec fn wf(&self) -> bool {
        self.spec_decoder().wf()
    }

    /// Build both sides from one configuration; rejects an invalid sample
    /// rate or channel count with `ConfigInvalid`.
    pub fn new(config: OpusConfig) -> (r: Result<Self, AmwajError>)
        ensures
            r is Ok <==> (valid_opus_rate(config.sample_rate) && 1 <= config.channels <= 2),
            r matches Ok(m) ==> {
                &&& m.wf()
                &&& m.spec_encoder().spec_config() == config
                &&& m.spec_decoder().spec_sample_rate() == config.sample_rate
                &&& m.spec_decoder().spec_channels() == config.channels
            },
            r matches Err(e) ==> e == AmwajError::ConfigInvalid,
    {
        let decoder = OpusDecoder::with_config(&config)?;
        let encoder = match OpusEncoder::with_config(config) {
            Ok(e) => e,
            Err(e) => {
                return Err(e);
            },
        };
        Ok(Self { encoder, decoder })
    }

    /// Encode PCM through the managed encoder.
    pub fn encode(&mut self, pcm_data: &[i16]) -> (r: Result<Vec<u8>, AmwajError>)
        ensures
            final(self).spec_decoder() == old(self).spec_decoder(),
            final(self).spec_encoder().spec_config() == old(self).spec_encoder().spec_config(),
            final(self).spec_encoder().spec_adaptive_enabled() == old(
                self,
            ).spec_encoder().spec_adaptive_enabled(),
            final(self).spec_encoder().spec_current_bitrate() == old(
                self,
            ).spec_encoder().spec_current_bitrate(),
            r is Ok <==> pcm_data@.len() > 0,
            r matches Ok(bytes) ==> bytes@ == Seq::new(
                spec_encoded_frame_bytes(
                    old(self).spec_encoder().spec_current_bitrate(),
                ) as nat,
                |i: int| 0xFFu8,
            ),
            r is Ok ==> final(self).spec_encoder().spec_frames_encoded() == old(
                self,
            ).spec_encoder().spec_frames_encoded().saturating_add(1),
            r matches Err(e) ==> e == AmwajError::EmptyPayload && final(self).spec_encoder().spec_frames_encoded() == old(
                self,
            ).spec_encoder().spec_frames_encoded(),
    {
        self.encoder.encode(pcm_data)
    }

    /// Decode Opus bytes through the managed decoder.
    pub fn decode(&mut self, opus_data: &[u8]) -> (r: Result<Vec<i16>, AmwajError>)
        requires
            old(self).wf(),
        ensures
            final(self).wf(),
            final(self).spec_encoder() == old(self).spec_encoder(),
            final(self).spec_decoder().spec_sample_rate() == old(
                self,
            ).spec_decoder().spec_sample_rate(),
            final(self).spec_decoder().spec_channels() == old(self).spec_decoder().spec_channels(),
            r is Ok <==> opus_data@.len() > 0,
            r matches Ok(pcm) ==> pcm@ == Seq::new(
                spec_frame_samples(
                    old(self).spec_decoder().spec_sample_rate(),
                    old(self).spec_decoder().spec_channels(),
                ) as nat,
                |i: int| 0i16,
            ),
            r is Ok ==> final(self).spec_decoder().spec_frames_decoded() == old(
                self,
            ).spec_decoder().spec_frames_decoded().saturating_add(1),
            r matches Err(e) ==> e == AmwajError::EmptyPayload && final(self).spec_decoder().spec_frames_decoded() == old(self).spec_decoder().spec_frames_decoded(),
    {
        self.decoder.decode(opus_data)
    }

    /// Let the managed encoder adapt its bitrate.
    pub fn enable_adaptive_bitrate(&mut self)
        ensures
            final(self).spec_decoder() == old(self).spec_decoder(),
            final(self).spec_encoder().spec_adaptive_enabled(),
            final(self).spec_encoder().spec_config() == old(self).spec_encoder().spec_config(),
            final(self).spec_encoder().spec_current_bitrate() == old(
                self,
            ).spec_encoder().spec_current_bitrate(),
    {
        self.encoder.enable_adaptive_bitrate();
    }

    /// Adapt the encoder bitrate to the observed network conditions.
    pub fn adapt_bitrate(&mut self, packet_loss_permille: u32, available_bandwidth_kbps: u32)
        ensures
            final(self).spec_decoder() == old(self).spec_decoder(),
            old(self).spec_encoder().spec_adaptive_enabled() ==> final(self)
                .spec_encoder().spec_current_bitrate() == spec_adapted_bitrate(
                old(self).spec_encoder().spec_config().bitrate,
                packet_loss_permille,
                available_bandwidth_kbps,
            ),
            !old(self).spec_encoder().spec_adaptive_enabled() ==> final(self).spec_encoder() == old(
                self,
            ).spec_encoder(),
    {
        self.encoder.adapt_bitrate(packet_loss_permille, available_bandwidth_kbps);
    }

    /// The managed encoder.
    pub fn encoder(&self) -> (r: &OpusEncoder)
        ensures
            *r == self.spec_encoder(),
    {
        &self.encoder
    }

    /// The managed decoder.
    pub fn decoder(&self) -> (r: &OpusDecoder)
        ensures
            *r == self.spec_decoder(),
    {
        &self.decoder
    }
}

} // verus!
