use amwaj_media::{AmwajError, Config, Metrics};

#[test]
fn test_config_load_default() {
    let config = Config::default();
    assert_eq!(config.server.port, 50051);
    assert_eq!(config.audio.sample_rate, 16000);
}

#[test]
fn test_config_values_valid() {
    let config = Config::default();
    assert!(config.detection.vad_sensitivity > 0);
    assert!(config.detection.vad_sensitivity <= 1000);
}

#[test]
fn test_metrics_creation() {
    let config = Config::default();
    let metrics = Metrics::new(&config);
    // Counter starts at 0
    assert_eq!(metrics.active_connections, 0);
}

#[test]
fn test_audio_config_defaults() {
    let config = Config::default();
    assert_eq!(config.audio.sample_rate, 16000);
    assert_eq!(config.audio.channels, 1);
    assert_eq!(config.audio.frame_duration_ms, 20);
}

#[test]
fn test_detection_config_defaults() {
    let config = Config::default();
    assert_eq!(config.detection.min_turn_duration_ms, 250);
    assert_eq!(config.detection.max_silence_duration_ms, 400);
}

#[test]
fn test_config_worker_threads_at_least_one() {
    let config = Config::default();
    assert!(config.server.worker_threads >= 1);
}

#[test]
fn test_config_from_env_is_default() {
    let config = Config::from_env();
    assert_eq!(config.server.port, 50051);
    assert_eq!(config.logging.level, "info");
    assert_eq!(config.logging.format, "json");
}

#[test]
fn test_error_messages() {
    assert_eq!(AmwajError::MalformedRtp.message(), "malformed RTP packet");
    assert_eq!(AmwajError::EmptyPayload.message(), "empty payload");
    assert_eq!(AmwajError::SessionNotFound.message(), "session not found");
    assert_eq!(
        AmwajError::SessionCapacityReached.message(),
        "maximum session limit reached"
    );
    assert_eq!(AmwajError::DecoderFailure.message(), "decoder failure");
    assert_eq!(AmwajError::SinkClosed.message(), "event sink closed");
    assert_eq!(AmwajError::ConfigInvalid.message(), "invalid configuration");
}
