use amwaj_media::{MediaEvent, MessageBuffer};

#[test]
fn test_message_buffer() {
    let mut buffer: MessageBuffer<i32> = MessageBuffer::new(3);

    assert!(buffer.push(1));
    assert!(buffer.push(2));
    assert!(buffer.push(3));
    assert!(!buffer.push(4)); // Buffer full

    assert!(buffer.is_full());
    assert_eq!(buffer.len(), 3);

    let drained = buffer.drain();
    assert_eq!(drained, vec![1, 2, 3]);
    assert!(buffer.is_empty());
}

#[test]
fn test_message_buffer_operations() {
    let mut buffer: MessageBuffer<String> = MessageBuffer::new(5);

    // Buffer should start empty
    assert!(buffer.is_empty());
    assert!(!buffer.is_full());

    // Add items
    for i in 0..5 {
        assert!(buffer.push(format!("msg-{}", i)));
    }

    // Buffer should be full
    assert!(buffer.is_full());
    assert_eq!(buffer.len(), 5);

    // Additional push should fail
    assert!(!buffer.push("overflow".to_string()));

    // Drain should return all items
    let items = buffer.drain();
    assert_eq!(items.len(), 5);
    assert!(buffer.is_empty());
}

#[test]
fn test_media_event_types() {
    let audio_event = MediaEvent::AudioFrame {
        session_id: "s1".to_string(),
        timestamp_ms: 100,
        pcm_data: vec![0, 1, 2, 3],
        sample_rate: 16000,
        channels: 1,
    };
    let turn_event = MediaEvent::TurnStarted {
        session_id: "s1".to_string(),
        timestamp_ms: 200,
        vad_probability: 800,
    };
    let barge_event = MediaEvent::BargeIn { session_id: "s1".to_string(), timestamp_ms: 300 };

    assert!(matches!(audio_event, MediaEvent::AudioFrame { .. }));
    assert!(matches!(turn_event, MediaEvent::TurnStarted { .. }));
    assert!(matches!(barge_event, MediaEvent::BargeIn { .. }));
}

#[test]
fn test_message_buffer_of_events_backpressure() {
    let mut buffer: MessageBuffer<MediaEvent> = MessageBuffer::new(2);
    assert!(buffer.push(MediaEvent::TurnStarted {
        session_id: "s1".to_string(),
        timestamp_ms: 0,
        vad_probability: 700,
    }));
    assert!(buffer.push(MediaEvent::TurnEnded {
        session_id: "s1".to_string(),
        timestamp_ms: 600,
        duration_ms: 600,
    }));
    assert!(!buffer.push(MediaEvent::BargeIn { session_id: "s1".to_string(), timestamp_ms: 700 }));
    let drained = buffer.drain();
    assert_eq!(drained.len(), 2);
    assert!(matches!(drained[0], MediaEvent::TurnStarted { .. }));
    assert!(matches!(drained[1], MediaEvent::TurnEnded { .. }));
}
