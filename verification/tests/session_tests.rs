use amwaj_media::{DistributedSessionManager, SessionConfig, SessionData, SessionState};

#[test]
fn test_session_data_creation() {
    let session = SessionData::new("test-123".to_string());
    assert_eq!(session.session_id, "test-123");
    assert_eq!(session.state, SessionState::Active);
    assert!(session.user_id.is_none());
    assert_eq!(session.created_at, session.last_activity);
}

#[test]
fn test_session_metadata() {
    let mut session = SessionData::new("test".to_string());
    session.set_metadata("key1".to_string(), "value1".to_string());

    assert_eq!(session.get_metadata("key1"), Some(&"value1".to_string()));
    assert_eq!(session.get_metadata("nonexistent"), None);
}

#[test]
fn test_session_metadata_overwrite() {
    let mut session = SessionData::new("test".to_string());
    session.set_metadata("key1".to_string(), "value1".to_string());
    session.set_metadata("key1".to_string(), "value2".to_string());

    assert_eq!(session.get_metadata("key1"), Some(&"value2".to_string()));
    assert_eq!(session.metadata.len(), 1);
}

#[test]
fn test_session_expiry_clock() {
    let session = SessionData::new("test".to_string());
    let at = session.last_activity;
    // Two seconds later with a zero TTL: expired.
    assert!(session.is_expired_at(0, at + 2000));
    // Two seconds later with a five-second TTL: not expired.
    assert!(!session.is_expired_at(5, at + 2000));
    // A clock that went backwards never expires a session.
    assert!(!session.is_expired_at(0, at - 10_000));
}

#[test]
fn test_session_manager_create() {
    let config = SessionConfig::default();
    let mut manager = DistributedSessionManager::new(config);

    let session_id = manager.create_session(Some("user-1".to_string())).unwrap();
    assert!(!session_id.is_empty());
    assert_eq!(session_id.len(), 36);

    let session = manager.get_session(&session_id);
    assert!(session.is_some());
    assert_eq!(session.unwrap().user_id, Some("user-1".to_string()));
}

#[test]
fn test_session_manager_touch() {
    let config = SessionConfig::default();
    let mut manager = DistributedSessionManager::new(config);

    let session_id = manager.create_session(None).unwrap();

    // Touch should succeed
    assert!(manager.touch_session(&session_id).is_ok());

    // Touch non-existent should fail
    assert!(manager.touch_session("nonexistent").is_err());
}

#[test]
fn test_session_manager_state_update() {
    let config = SessionConfig::default();
    let mut manager = DistributedSessionManager::new(config);

    let session_id = manager.create_session(None).unwrap();

    manager.update_state(&session_id, SessionState::Paused).unwrap();

    let session = manager.get_session(&session_id).unwrap();
    assert_eq!(session.state, SessionState::Paused);
}

#[test]
fn test_session_manager_count() {
    let config = SessionConfig::default();
    let mut manager = DistributedSessionManager::new(config);

    assert_eq!(manager.total_session_count(), 0);

    manager.create_session(None).unwrap();
    manager.create_session(None).unwrap();

    assert_eq!(manager.total_session_count(), 2);
    assert_eq!(manager.active_session_count(), 2);
}

#[test]
fn test_session_manager_end() {
    let config = SessionConfig::default();
    let mut manager = DistributedSessionManager::new(config);

    let session_id = manager.create_session(None).unwrap();
    assert_eq!(manager.total_session_count(), 1);

    manager.end_session(&session_id).unwrap();
    assert_eq!(manager.total_session_count(), 0);
}

#[test]
fn test_session_manager_capacity() {
    let config = SessionConfig { redis_url: None, ttl_seconds: 3600, max_sessions: 2 };
    let mut manager = DistributedSessionManager::new(config);

    manager.create_session(None).unwrap();
    manager.create_session(None).unwrap();
    // Nothing is expired, so the third session is refused.
    let third = manager.create_session(None);
    assert_eq!(third.unwrap_err(), amwaj_media::AmwajError::SessionCapacityReached);
    assert_eq!(manager.total_session_count(), 2);
}

#[test]
fn test_session_manager_set_metadata() {
    let config = SessionConfig::default();
    let mut manager = DistributedSessionManager::new(config);
    let id = manager.create_session(None).unwrap();

    manager.set_metadata(&id, "lang".to_string(), "ar".to_string()).unwrap();
    let rec = manager.get_session(&id).unwrap();
    assert_eq!(rec.get_metadata("lang"), Some(&"ar".to_string()));

    assert!(manager.set_metadata("missing", "k".to_string(), "v".to_string()).is_err());
}

#[test]
fn test_session_manager_list() {
    let config = SessionConfig::default();
    let mut manager = DistributedSessionManager::new(config);
    let a = manager.create_session(None).unwrap();
    let b = manager.create_session(None).unwrap();

    let ids = manager.list_sessions();
    assert_eq!(ids.len(), 2);
    assert!(ids.contains(&a));
    assert!(ids.contains(&b));
}

#[test]
fn test_session_config_default() {
    let config = SessionConfig::default();
    assert!(config.redis_url.is_none());
    assert_eq!(config.ttl_seconds, 3600);
    assert_eq!(config.max_sessions, 10000);
}

#[test]
fn test_session_new_at_pins_timestamps() {
    let session = SessionData::new_at("stamped".to_string(), 42_000);
    assert_eq!(session.created_at, 42_000);
    assert_eq!(session.last_activity, 42_000);
    assert_eq!(session.state, SessionState::Active);
}

#[test]
fn test_touch_at_pins_activity() {
    let mut session = SessionData::new_at("stamped".to_string(), 42_000);
    session.touch_at(99_000);
    assert_eq!(session.last_activity, 99_000);
    assert_eq!(session.created_at, 42_000);
}

#[test]
fn test_touch_session_at() {
    let mut manager = DistributedSessionManager::new(SessionConfig::default());
    let id = manager.create_session(None).unwrap();
    let other = manager.create_session(None).unwrap();
    let other_before = manager.get_session(&other).unwrap().last_activity;

    manager.touch_session_at(&id, 123_456).unwrap();

    assert_eq!(manager.get_session(&id).unwrap().last_activity, 123_456);
    // The other entry is untouched.
    assert_eq!(manager.get_session(&other).unwrap().last_activity, other_before);
}

#[test]
fn test_update_state_at() {
    let mut manager = DistributedSessionManager::new(SessionConfig::default());
    let id = manager.create_session(None).unwrap();

    manager.update_state_at(&id, SessionState::Paused, 777_000).unwrap();

    let rec = manager.get_session(&id).unwrap();
    assert_eq!(rec.state, SessionState::Paused);
    assert_eq!(rec.last_activity, 777_000);
}

#[test]
fn test_capacity_reaps_expired_sessions() {
    let config = SessionConfig { redis_url: None, ttl_seconds: 1, max_sessions: 2 };
    let mut manager = DistributedSessionManager::new(config);

    let a = manager.create_session(None).unwrap();
    let b = manager.create_session(None).unwrap();
    // Backdate both to the epoch: long expired against the real clock.
    manager.touch_session_at(&a, 0).unwrap();
    manager.touch_session_at(&b, 0).unwrap();

    // At capacity, but the reap clears the expired pair and the new
    // session fits.
    let c = manager.create_session(None).unwrap();
    assert_eq!(manager.total_session_count(), 1);
    assert!(manager.get_session(&c).is_some());
    assert!(manager.get_session(&a).is_none());
}

#[test]
fn test_end_session_removes_only_match() {
    let mut manager = DistributedSessionManager::new(SessionConfig::default());
    let a = manager.create_session(None).unwrap();
    let b = manager.create_session(None).unwrap();

    manager.end_session(&a).unwrap();

    assert_eq!(manager.total_session_count(), 1);
    assert!(manager.get_session(&a).is_none());
    assert!(manager.get_session(&b).is_some());
}
