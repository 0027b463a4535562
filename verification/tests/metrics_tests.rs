use amwaj_media::{Config, LatencyTracker, Metrics};

#[test]
fn test_metrics_initialization() {
    let config = Config::default();
    let metrics = Metrics::new(&config);

    assert_eq!(metrics.active_connections, 0);
}

#[test]
fn test_connection_tracking() {
    let config = Config::default();
    let mut metrics = Metrics::new(&config);

    assert_eq!(metrics.active_connections, 0);

    metrics.connection_opened();
    assert_eq!(metrics.active_connections, 1);

    metrics.connection_opened();
    assert_eq!(metrics.active_connections, 2);

    metrics.connection_closed();
    assert_eq!(metrics.active_connections, 1);
}

#[test]
fn test_turn_event_tracking() {
    let config = Config::default();
    let mut metrics = Metrics::new(&config);

    metrics.record_turn_start();
    metrics.record_turn_end();

    assert_eq!(metrics.turn_starts, 1);
    assert_eq!(metrics.turn_ends, 1);
    assert_eq!(metrics.turn_events_detected, 2);
}

#[test]
fn test_barge_in_tracking() {
    let config = Config::default();
    let mut metrics = Metrics::new(&config);

    metrics.record_barge_in();
    metrics.record_barge_in();

    assert_eq!(metrics.barge_ins, 2);
}

#[test]
fn test_latency_tracker_basic() {
    let tracker = LatencyTracker::new("test_component");
    assert_eq!(tracker.component(), "test_component");
    assert!(!tracker.is_recorded());
}

#[test]
fn test_latency_tracker_creation() {
    let tracker = LatencyTracker::new("test_component");
    assert_eq!(tracker.component(), "test_component");
    assert!(!tracker.is_recorded());
}

#[test]
fn test_latency_tracker_mark_recorded() {
    let mut tracker = LatencyTracker::new("audio_processing");
    tracker.mark_recorded();
    assert!(tracker.is_recorded());
}
