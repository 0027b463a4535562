use amwaj_media::{
    AudioFeatures, AudioProcessor, ConversationContext, JitterBuffer, MultiSignalFusion,
    RtpPacket, TurnDetectionConfig, TurnDetectionEngine, TurnEvent, TurnState,
};

fn features_at(volume_db: i32) -> AudioFeatures {
    AudioFeatures { volume_db, pitch_hz: 200_000, spectral_centroid: 0, zero_crossing_rate: 0 }
}

#[test]
fn test_complete_audio_pipeline() {
    // Create components
    let mut processor = AudioProcessor::new(16000, 320);
    let config = TurnDetectionConfig {
        vad_threshold_enter: 500,
        vad_threshold_exit: 300,
        min_speech_duration_ms: 100,
        max_silence_duration_ms: 200,
        volume_threshold_db: -50_000,
    };
    let mut detector = TurnDetectionEngine::new(config);

    // Simulate voice input (high amplitude)
    let voice_pcm = vec![5000i16; 320];

    // Process audio
    let frame = processor.process_frame(&voice_pcm).unwrap();

    // Run turn detection with high VAD (simulating good voice)
    let event = detector.process(
        800, // Force high VAD for reliable test
        &frame.features,
        20,
    );

    // Should detect speech start
    assert_eq!(event, TurnEvent::TurnStarted);
}

#[test]
fn test_webrtc_to_audio_pipeline() {
    // Simulate RTP packets
    let mut jitter_buffer = JitterBuffer::new(100, 16000);

    for seq in 0..10u16 {
        let payload = vec![0xAAu8; 160]; // Simulated opus data
        jitter_buffer.insert(seq, payload);
    }

    // Verify buffer ordering
    let frames = jitter_buffer.get_ready_frames(10);
    assert_eq!(frames.len(), 10);
}

#[test]
fn test_rtp_parsing_to_audio() {
    // Create RTP packet with audio payload
    let rtp_data = vec![
        0x80, 0x6F, 0x00, 0x01, // Version=2, PT=111, seq=1
        0x00, 0x00, 0x00, 0x00, // Timestamp
        0x00, 0x00, 0x00, 0x01, // SSRC
        // Simulated opus payload
        0x01, 0x02, 0x03, 0x04, 0x05, 0x06, 0x07, 0x08,
    ];

    let packet = RtpPacket::parse(&rtp_data).unwrap();

    assert_eq!(packet.version, 2);
    assert_eq!(packet.payload_type, 111);
    assert_eq!(packet.payload.len(), 8);
}

#[test]
fn test_full_turn_detection_cycle() {
    let config = TurnDetectionConfig {
        vad_threshold_enter: 500,
        vad_threshold_exit: 300,
        min_speech_duration_ms: 100,
        max_silence_duration_ms: 200,
        volume_threshold_db: -50_000,
    };

    let mut detector = TurnDetectionEngine::new(config);
    let mut processor = AudioProcessor::new(16000, 320);

    // Phase 1: Silence
    for _ in 0..5 {
        let silence = vec![0i16; 320];
        let frame = processor.process_frame(&silence).unwrap();
        let event = detector.process(frame.vad_probability, &frame.features, 20);
        assert_eq!(event, TurnEvent::NoEvent);
    }

    // Phase 2: Speech starts
    let voice = vec![5000i16; 320];
    let frame = processor.process_frame(&voice).unwrap();
    // Force high VAD for test
    let event = detector.process(800, &frame.features, 20);
    assert_eq!(event, TurnEvent::TurnStarted);

    // Phase 3: Continue speaking
    for _ in 0..10 {
        let event = detector.process(800, &frame.features, 20);
        assert_eq!(event, TurnEvent::NoEvent);
    }

    // Phase 4: Silence begins
    detector.process(100, &frame.features, 20);

    // Phase 5: Silence continues until turn ends
    let mut turn_ended = false;
    for _ in 0..15 {
        if let TurnEvent::TurnEnded(_) = detector.process(100, &frame.features, 20) {
            turn_ended = true;
            break;
        }
    }

    assert!(turn_ended);
}

#[test]
fn test_clean_turn_scenario() {
    // 30 voice frames then 25 silence frames, at the default thresholds.
    let mut engine = TurnDetectionEngine::new(TurnDetectionConfig::default());
    let voice = features_at(-20_000);
    let silence = features_at(-50_000);

    let mut started = 0;
    let mut ended: Vec<u32> = Vec::new();
    let mut end_frame = 0;

    for _ in 0..30 {
        match engine.process(800, &voice, 20) {
            TurnEvent::TurnStarted => started += 1,
            TurnEvent::TurnEnded(_) => panic!("no turn end during speech"),
            _ => {},
        }
    }
    for i in 0..25 {
        match engine.process(100, &silence, 20) {
            TurnEvent::TurnStarted => panic!("no turn start during silence"),
            TurnEvent::TurnEnded(d) => {
                ended.push(d);
                end_frame = i + 1;
            },
            _ => {},
        }
    }

    assert_eq!(started, 1);
    assert_eq!(ended.len(), 1);
    // The turn ends on the 20th silence frame (400 ms of silence), and the
    // speech duration includes the frame on which the exit check fired.
    assert_eq!(end_frame, 20);
    assert_eq!(ended[0], 620);
    assert_eq!(engine.state(), TurnState::Idle);
}

#[test]
fn test_brief_drop_then_resume_scenario() {
    // 10 voice frames, 5 quiet frames, 10 voice frames: the gap is absorbed.
    let mut engine = TurnDetectionEngine::new(TurnDetectionConfig::default());
    let voice = features_at(-20_000);

    let mut started = 0;
    let mut ended = 0;
    for _ in 0..10 {
        match engine.process(800, &voice, 20) {
            TurnEvent::TurnStarted => started += 1,
            TurnEvent::TurnEnded(_) => ended += 1,
            _ => {},
        }
    }
    for _ in 0..5 {
        match engine.process(100, &voice, 20) {
            TurnEvent::TurnStarted => started += 1,
            TurnEvent::TurnEnded(_) => ended += 1,
            _ => {},
        }
    }
    for _ in 0..10 {
        match engine.process(800, &voice, 20) {
            TurnEvent::TurnStarted => started += 1,
            TurnEvent::TurnEnded(_) => ended += 1,
            _ => {},
        }
    }

    assert_eq!(started, 1);
    assert_eq!(ended, 0);
    assert_eq!(engine.state(), TurnState::Speaking);
}

#[test]
fn test_too_short_burst_scenario() {
    // 3 voice frames then 25 silence frames: suppressed, no turn end.
    let mut engine = TurnDetectionEngine::new(TurnDetectionConfig::default());
    let voice = features_at(-20_000);
    let silence = features_at(-50_000);

    let mut started = 0;
    let mut ended = 0;
    for _ in 0..3 {
        if engine.process(800, &voice, 20) == TurnEvent::TurnStarted {
            started += 1;
        }
    }
    for _ in 0..25 {
        if let TurnEvent::TurnEnded(_) = engine.process(100, &silence, 20) {
            ended += 1;
        }
    }

    assert_eq!(started, 1);
    assert_eq!(ended, 0);
    assert_eq!(engine.state(), TurnState::Idle);
}

#[test]
fn test_out_of_order_rtp_scenario() {
    let mut buffer = JitterBuffer::new(100, 16000);
    buffer.insert(102, vec![b'C']);
    buffer.insert(100, vec![b'A']);
    buffer.insert(101, vec![b'B']);

    assert_eq!(buffer.get_ready_frame(), Some(vec![b'A']));
    assert_eq!(buffer.get_ready_frame(), Some(vec![b'B']));
    assert_eq!(buffer.get_ready_frame(), Some(vec![b'C']));
    assert_eq!(buffer.get_ready_frame(), None);
}

#[test]
fn test_barge_in_scenario() {
    let mut engine = TurnDetectionEngine::new(TurnDetectionConfig::default());
    let voice = features_at(-20_000);

    // During Speaking the orchestrator signals a potential barge-in.
    engine.process(800, &voice, 20);
    assert_eq!(engine.state(), TurnState::Speaking);
    assert!(engine.is_speaking());

    engine.signal_potential_barge_in();
    assert!(engine.check_barge_in());
    assert_eq!(engine.state(), TurnState::Speaking);
    // The flag is consumed.
    assert!(!engine.check_barge_in());
}

#[test]
fn test_barge_in_ignored_when_idle() {
    let mut engine = TurnDetectionEngine::new(TurnDetectionConfig::default());
    engine.signal_potential_barge_in();
    assert!(!engine.check_barge_in());
}

#[test]
fn test_context_bias_scenario() {
    let fusion = MultiSignalFusion::new();
    let features = AudioFeatures {
        volume_db: -25_000,
        pitch_hz: 150_000,
        spectral_centroid: 0,
        zero_crossing_rate: 0,
    };

    let expecting = fusion.fuse_signals(
        500,
        &features,
        Some(ConversationContext::ExpectingResponse),
    );
    let neutral = fusion.fuse_signals(500, &features, None);
    let playing = fusion.fuse_signals(500, &features, Some(ConversationContext::PlayingAudio));

    assert!(expecting > neutral);
    assert!(neutral > playing);
}

#[test]
fn test_idle_on_silence_stays_idle() {
    // Any number of frames below the enter threshold keeps the engine Idle.
    let mut engine = TurnDetectionEngine::new(TurnDetectionConfig::default());
    let loud_but_low_vad = features_at(-10_000);
    for _ in 0..100 {
        let event = engine.process(599, &loud_but_low_vad, 20);
        assert_eq!(event, TurnEvent::NoEvent);
        assert_eq!(engine.state(), TurnState::Idle);
    }
    assert_eq!(engine.speech_duration_ms(), 0);
}

#[test]
fn test_timestamp_progression() {
    let mut processor = AudioProcessor::new(16000, 320);
    let frame1 = processor.process_frame(&vec![0i16; 320]).unwrap();
    let frame2 = processor.process_frame(&vec![0i16; 320]).unwrap();
    assert_eq!(frame1.timestamp_ms, 20);
    assert_eq!(frame2.timestamp_ms, 40);
}
