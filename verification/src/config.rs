//! Server configuration. Parsing a configuration file is left to the
//! binary around the library; the defaults live here.

use vstd::prelude::*;
use vstd::string::StringExecFns;

verus! {

#[derive(Debug, Clone)]
pub struct ServerConfig {
    pub host: String,
    pub port: u16,
    pub worker_threads: usize,
}

#[derive(Debug, Clone)]
pub struct GrpcConfig {
    pub max_message_size: usize,
    pub timeout_secs: u64,
}

#[derive(Debug, Clone)]
pub struct WebRtcConfig {
    pub stun_servers: Vec<String>,
    pub turn_servers: Vec<String>,
}

#[derive(Debug, Clone)]
pub struct AudioConfig {
    pub sample_rate: u32,
    pub channels: u32,
    pub frame_duration_ms: u32,
}

/// Detection thresholds; the sensitivity is in per-mille.
#[derive(Debug, Clone)]
pub struct DetectionConfig {
    pub vad_sensitivity: u32,
    pub min_turn_duration_ms: u32,
    pub max_silence_duration_ms: u32,
}

#[derive(Debug, Clone)]
pub struct MetricsConfig {
    pub prometheus_port: u16,
    pub enable_jaeger_tracing: bool,
    pub jaeger_agent_host: String,
    pub jaeger_agent_port: u16,
}

#[derive(Debug, Clone)]
pub struct LoggingConfig {
    pub level: String,
    pub format: String,
}

#[derive(Debug, Clone)]
pub struct Config {
    pub server: ServerConfig,
    pub grpc: GrpcConfig,
    pub webrtc: WebRtcConfig,
    pub audio: AudioConfig,
    pub detection: DetectionConfig,
    pub metrics: MetricsConfig,
    pub logging: LoggingConfig,
}

/// Relies on num_cpus::get: the number of available logical CPUs, always
/// at least 1.
#[verifier::external_body]
fn cpu_count() -> (r: usize)
    ensures
        r >= 1,
{
    num_cpus::get()
}

impl Default for Config {
    /// The documented defaults: gRPC on port 50051 with one worker per
    /// CPU, mono 16 kHz audio in 20 ms frames, VAD sensitivity 0.6,
    /// 250 ms minimum turns and 400 ms maximum silence, JSON logging.
    fn default() -> (r: Self)
        ensures
            r.server.host@ == "0.0.0.0"@,
            r.server.port == 50051,
            r.server.worker_threads >= 1,
            r.grpc.max_message_size == 10485760,
            r.grpc.timeout_secs == 30,
            r.webrtc.stun_servers@.len() == 1,
            r.webrtc.turn_servers@.len() == 0,
            r.audio.sample_rate == 16000,
            r.audio.channels == 1,
            r.audio.frame_duration_ms == 20,
            r.detection.vad_sensitivity == 600,
            r.detection.min_turn_duration_ms == 250,
            r.detection.max_silence_duration_ms == 400,
            r.metrics.prometheus_port == 9090,
            r.metrics.enable_jaeger_tracing,
            r.metrics.jaeger_agent_host@ == "localhost"@,
            r.metrics.jaeger_agent_port == 6831,
            r.logging.level@ == "info"@,
            r.logging.format@ == "json"@,
    {
        let mut stun_servers: Vec<String> = Vec::new();
        stun_servers.push(String::from_str("stun:stun.l.google.com:19302"));
        Config {
            server: ServerConfig {
                host: String::from_str("0.0.0.0"),
                port: 50051,
                worker_threads: cpu_count(),
            },
            grpc: GrpcConfig { max_message_size: 10485760, timeout_secs: 30 },
            webrtc: WebRtcConfig { stun_servers, turn_servers: Vec::new() },
            audio: AudioConfig { sample_rate: 16000, channels: 1, frame_duration_ms: 20 },
            detection: DetectionConfig {
                vad_sensitivity: 600,
                min_turn_duration_ms: 250,
                max_silence_duration_ms: 400,
            },
            metrics: MetricsConfig {
                prometheus_port: 9090,
                enable_jaeger_tracing: true,
                jaeger_agent_host: String::from_str("localhost"),
                jaeger_agent_port: 6831,
            },
            logging: LoggingConfig {
                level: String::from_str("info"),
                format: String::from_str("json"),
            },
        }
    }
}

impl Config {
    /// The defaults; reading the environment is left to the binary.
    pub fn from_env() -> (r: Self)
        ensures
            r.server.port == 50051,
            r.audio.sample_rate == 16000,
    {
        Self::default()
    }
}

} // verus!
