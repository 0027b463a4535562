//! Per-session real-time audio pipeline for a voice-agent media server.
//!
//! The crate covers the per-frame processing chain: RTP header parsing, a
//! bounded jitter buffer that reorders packets by sequence number, an Opus
//! codec facade, audio feature extraction and voice activity detection,
//! multi-signal fusion, and the three-state turn-taking automaton that
//! emits conversational events; around it sit the session registry, the
//! event types and the metric counters.
//!
//! All quantities are integer fixed-point: probabilities and rates in
//! per-mille, volumes in thousandths of a dB, frequencies in thousandths
//! of a Hz, frame energies in parts per billion of full scale.

pub mod codec;
pub mod config;
pub mod error;
pub mod features;
pub mod fixed_point;
pub mod ice;
pub mod jitter_buffer;
pub mod metrics;
pub mod multi_signal;
pub mod peer_connection;
pub mod processor;
pub mod rtp_handler;
pub mod service;
pub mod session;
pub mod turn_detection;
pub mod vad;
pub mod voice_isolation;

pub use codec::{OpusCodecManager, OpusConfig, OpusDecoder, OpusEncoder};
pub use config::{
    AudioConfig, Config, DetectionConfig, GrpcConfig, LoggingConfig, MetricsConfig, ServerConfig,
    WebRtcConfig,
};
pub use error::AmwajError;
pub use features::{
    calculate_spectral_centroid, calculate_volume, calculate_zero_crossing_rate, estimate_pitch,
    extract_features, sum_squares, AudioFeatures, MAX_FRAME_SAMPLES, SILENCE_DB,
};
pub use ice::{calculate_priority, CandidateType, StunClient, TurnServerConfig};
pub use jitter_buffer::{lemma_jitter_bound, lemma_jitter_ordering, JitterBuffer};
pub use metrics::{LatencyTracker, Metrics};
pub use multi_signal::{lemma_fusion_range, ConfidenceLevel, ConversationContext, MultiSignalFusion};
pub use peer_connection::{BufferStats, PeerConnection};
pub use processor::{lemma_pcm_round_trip_error, pcm_rescale, AudioProcessor, ProcessedFrame};
pub use rtp_handler::{lemma_rtp_round_trip, RtpPacket};
pub use service::{MediaEvent, MessageBuffer, OrchestrationCommand};
pub use session::{DistributedSessionManager, SessionConfig, SessionData, SessionState};
pub use turn_detection::{
    lemma_turn_idle_on_silence, lemma_turn_idle_step, lemma_turn_short_speech_suppressed,
    TurnDetectionConfig, TurnDetectionEngine, TurnEvent, TurnState,
};
pub use vad::{lemma_vad_range, VoiceActivityDetector};
pub use voice_isolation::{VoiceIsolation, VoiceIsolationConfig};
