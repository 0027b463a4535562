use amwaj_media::{
    calculate_priority, AmwajError, CandidateType, JitterBuffer, OpusCodecManager, OpusConfig,
    OpusDecoder, OpusEncoder, PeerConnection, RtpPacket, StunClient,
};

#[test]
fn test_rtp_packet_parsing() {
    let data = vec![
        0x80, 0x78, 0x00, 0x01, // Version, marker, sequence
        0x00, 0x00, 0x00, 0x00, // Timestamp
        0x00, 0x00, 0x00, 0x01, // SSRC
        0xAA, 0xBB, 0xCC, 0xDD, // Payload
    ];

    let packet = RtpPacket::parse(&data).expect("Failed to parse RTP packet");
    assert_eq!(packet.version, 2);
    assert_eq!(packet.sequence_number, 1);
    assert_eq!(packet.payload.len(), 4);
}

#[test]
fn test_rtp_packet_with_marker() {
    let data = vec![
        0x80, 0xF8, 0x00, 0x10, // Version, marker=1, PT=120, seq=16
        0x00, 0x01, 0x00, 0x00, // Timestamp
        0xDE, 0xAD, 0xBE, 0xEF, // SSRC
        0x01, 0x02, // Payload
    ];

    let packet = RtpPacket::parse(&data).expect("Failed to parse");
    assert!(packet.marker);
    assert_eq!(packet.payload_type, 120);
    assert_eq!(packet.sequence_number, 16);
    assert_eq!(packet.ssrc, 0xDEADBEEF);
}

#[test]
fn test_parse_valid_packet() {
    let data = vec![
        0x80, 0x78, 0x00, 0x01, // Version=2, marker=0, PT=120, seq=1
        0x00, 0x00, 0x00, 0x00, // Timestamp
        0x00, 0x00, 0x00, 0x01, // SSRC
        0xAA, 0xBB, 0xCC, 0xDD, // Payload
    ];

    let packet = RtpPacket::parse(&data).expect("Failed to parse RTP packet");
    assert_eq!(packet.version, 2);
    assert_eq!(packet.sequence_number, 1);
    assert_eq!(packet.payload_type, 120);
    assert_eq!(packet.payload.len(), 4);
}

#[test]
fn test_parse_too_short() {
    let data = vec![0x80, 0x78, 0x00];
    assert!(RtpPacket::parse(&data).is_err());
}

#[test]
fn test_parse_bad_version_rejected() {
    let mut data = vec![0u8; 16];
    data[0] = 0x40; // version 1
    assert_eq!(RtpPacket::parse(&data).unwrap_err(), AmwajError::MalformedRtp);
}

#[test]
fn test_serialize_roundtrip() {
    let original = RtpPacket {
        version: 2,
        padding: false,
        extension: false,
        csrc_count: 0,
        marker: true,
        payload_type: 111,
        sequence_number: 1234,
        timestamp: 5678,
        ssrc: 9012,
        payload: vec![1, 2, 3, 4],
    };

    let serialized = original.serialize();
    let parsed = RtpPacket::parse(&serialized).expect("Failed to parse");

    assert_eq!(parsed.version, original.version);
    assert_eq!(parsed.marker, original.marker);
    assert_eq!(parsed.payload_type, original.payload_type);
    assert_eq!(parsed.sequence_number, original.sequence_number);
    assert_eq!(parsed.timestamp, original.timestamp);
    assert_eq!(parsed.ssrc, original.ssrc);
    assert_eq!(parsed.payload, original.payload);
}

#[test]
fn test_serialize_roundtrip_with_csrc() {
    let original = RtpPacket {
        version: 2,
        padding: true,
        extension: true,
        csrc_count: 3,
        marker: false,
        payload_type: 96,
        sequence_number: 65535,
        timestamp: 0xFFFF_FFFF,
        ssrc: 1,
        payload: vec![9, 8, 7],
    };

    let serialized = original.serialize();
    assert_eq!(serialized.len(), 12 + 4 * 3 + 3);
    let parsed = RtpPacket::parse(&serialized).expect("Failed to parse");
    assert_eq!(parsed.csrc_count, 3);
    assert_eq!(parsed.padding, original.padding);
    assert_eq!(parsed.extension, original.extension);
    assert_eq!(parsed.payload, original.payload);
}

#[test]
fn test_is_opus_payload_types() {
    let mut p = RtpPacket {
        version: 2,
        padding: false,
        extension: false,
        csrc_count: 0,
        marker: false,
        payload_type: 111,
        sequence_number: 0,
        timestamp: 0,
        ssrc: 0,
        payload: vec![],
    };
    assert!(p.is_opus());
    p.payload_type = 96;
    assert!(p.is_opus());
    p.payload_type = 120;
    assert!(!p.is_opus());
}

#[test]
fn test_jitter_buffer_insert_retrieve() {
    let mut buffer = JitterBuffer::new(100, 16000);

    let data = vec![0x01, 0x02, 0x03];
    buffer.insert(100, data.clone());

    let retrieved = buffer.get_ready_frame();
    assert_eq!(retrieved, Some(data));
}

#[test]
fn test_jitter_buffer_ordering() {
    let mut buffer = JitterBuffer::new(100, 16000);

    buffer.insert(102, vec![3]);
    buffer.insert(100, vec![1]);
    buffer.insert(101, vec![2]);

    assert_eq!(buffer.get_ready_frame(), Some(vec![1]));
    assert_eq!(buffer.get_ready_frame(), Some(vec![2]));
    assert_eq!(buffer.get_ready_frame(), Some(vec![3]));
}

#[test]
fn test_jitter_buffer_get_multiple() {
    let mut buffer = JitterBuffer::new(100, 16000);

    buffer.insert(1, vec![1]);
    buffer.insert(2, vec![2]);
    buffer.insert(3, vec![3]);

    let frames = buffer.get_ready_frames(2);
    assert_eq!(frames.len(), 2);
    assert_eq!(frames[0], vec![1]);
    assert_eq!(frames[1], vec![2]);
}

#[test]
fn test_insert_and_retrieve() {
    let mut buffer = JitterBuffer::new(100, 16000);

    let data = vec![0x01, 0x02, 0x03];
    buffer.insert(100, data.clone());

    let retrieved = buffer.get_ready_frame();
    assert_eq!(retrieved, Some(data));
}

#[test]
fn test_ordering() {
    let mut buffer = JitterBuffer::new(100, 16000);

    // Insert out of order
    buffer.insert(102, vec![3]);
    buffer.insert(100, vec![1]);
    buffer.insert(101, vec![2]);

    // Should retrieve in order
    assert_eq!(buffer.get_ready_frame(), Some(vec![1]));
    assert_eq!(buffer.get_ready_frame(), Some(vec![2]));
    assert_eq!(buffer.get_ready_frame(), Some(vec![3]));
}

#[test]
fn test_empty_buffer() {
    let mut buffer = JitterBuffer::new(100, 16000);
    assert_eq!(buffer.get_ready_frame(), None);
    assert_eq!(buffer.size(), 0);
}

#[test]
fn test_is_ready() {
    let mut buffer = JitterBuffer::new(100, 16000);

    assert!(!buffer.is_ready(3));

    buffer.insert(1, vec![1]);
    buffer.insert(2, vec![2]);
    buffer.insert(3, vec![3]);

    assert!(buffer.is_ready(3));
}

#[test]
fn test_jitter_capacity_evicts_oldest() {
    // 100 ms at 16 kHz gives the minimum capacity of 10 packets.
    let mut buffer = JitterBuffer::new(100, 16000);
    assert_eq!(buffer.max_packets(), 10);

    for seq in 0..11u16 {
        buffer.insert(seq, vec![seq as u8]);
    }
    assert_eq!(buffer.size(), 10);
    // The lowest sequence (0) was evicted.
    assert_eq!(buffer.get_ready_frame(), Some(vec![1u8]));
}

#[test]
fn test_jitter_loss_counting() {
    let mut buffer = JitterBuffer::new(100, 16000);
    buffer.insert(10, vec![1]);
    assert_eq!(buffer.get_ready_frame(), Some(vec![1]));
    // Expected next is 11; a jump to 14 loses 3 packets.
    buffer.insert(14, vec![2]);
    assert_eq!(buffer.packets_lost(), 3);
    assert_eq!(buffer.packets_received(), 2);
    // 1000 * 3 / (2 + 3) = 600 per-mille.
    assert_eq!(buffer.packet_loss_permille(), 600);
    buffer.reset_stats();
    assert_eq!(buffer.packets_lost(), 0);
    assert_eq!(buffer.packet_loss_permille(), 0);
}

#[test]
fn test_jitter_late_packet_dropped() {
    let mut buffer = JitterBuffer::new(100, 16000);
    buffer.insert(100, vec![1]);
    assert_eq!(buffer.get_ready_frame(), Some(vec![1]));
    // Far behind the delivery point: dropped silently.
    buffer.insert(50, vec![2]);
    assert_eq!(buffer.size(), 0);
    assert_eq!(buffer.packets_lost(), 0);
}

#[test]
fn test_jitter_clear() {
    let mut buffer = JitterBuffer::new(100, 16000);
    buffer.insert(1, vec![1]);
    buffer.insert(2, vec![2]);
    buffer.clear();
    assert_eq!(buffer.size(), 0);
    assert_eq!(buffer.get_ready_frame(), None);
}

#[test]
fn test_opus_decoder_creation() {
    let decoder = OpusDecoder::new(16000);
    assert_eq!(decoder.sample_rate(), 16000);
    assert_eq!(decoder.frames_decoded(), 0);
}

#[test]
fn test_opus_decode_stub() {
    let mut decoder = OpusDecoder::new(16000);
    let result = decoder.decode(&[0xFF; 100]);
    assert!(result.is_ok());

    let pcm = result.unwrap();
    assert!(!pcm.is_empty());
    assert_eq!(decoder.frames_decoded(), 1);
}

#[test]
fn test_decoder_creation() {
    let decoder = OpusDecoder::new(16000);
    assert_eq!(decoder.sample_rate(), 16000);
    assert_eq!(decoder.frames_decoded(), 0);
}

#[test]
fn test_decode_empty_fails() {
    let mut decoder = OpusDecoder::new(16000);
    let result = decoder.decode(&[]);
    assert!(result.is_err());
    assert_eq!(result.unwrap_err(), AmwajError::EmptyPayload);
}

#[test]
fn test_decode_stub() {
    let mut decoder = OpusDecoder::new(16000);
    let opus_data = vec![0xFF, 0x00, 0xAB];

    let result = decoder.decode(&opus_data);
    assert!(result.is_ok());

    let pcm = result.unwrap();
    assert!(!pcm.is_empty());
    assert_eq!(pcm.len(), 320);
    assert_eq!(decoder.frames_decoded(), 1);
}

#[test]
fn test_decode_fec_plc_frame() {
    let mut decoder = OpusDecoder::new(16000);
    let pcm = decoder.decode_fec(None).unwrap();
    assert_eq!(pcm.len(), 320);
    assert!(pcm.iter().all(|&s| s == 0));
    // A concealment frame does not count as a decoded frame.
    assert_eq!(decoder.frames_decoded(), 0);
}

#[test]
fn test_decoder_invalid_config_rejected() {
    let config = OpusConfig { sample_rate: 44100, ..OpusConfig::default() };
    let result = OpusDecoder::with_config(&config);
    assert!(matches!(result, Err(AmwajError::ConfigInvalid)));
}

#[test]
fn test_encoder_creation() {
    let encoder = OpusEncoder::new(16000);
    assert_eq!(encoder.config().sample_rate, 16000);
    assert_eq!(encoder.frames_encoded(), 0);
}

#[test]
fn test_encode_stub() {
    let mut encoder = OpusEncoder::new(16000);
    let pcm = vec![100i16; 320];

    let result = encoder.encode(&pcm);
    assert!(result.is_ok());
    assert!(!result.unwrap().is_empty());
    assert_eq!(encoder.frames_encoded(), 1);
}

#[test]
fn test_encode_empty_fails() {
    let mut encoder = OpusEncoder::new(16000);
    assert_eq!(encoder.encode(&[]).unwrap_err(), AmwajError::EmptyPayload);
}

#[test]
fn test_adaptive_bitrate() {
    let mut encoder = OpusEncoder::new(16000);
    let initial_bitrate = encoder.current_bitrate();

    encoder.enable_adaptive_bitrate();

    // High packet loss (15%) should reduce bitrate.
    encoder.adapt_bitrate(150, 100);
    assert!(encoder.current_bitrate() < initial_bitrate);
    // 28000 scaled by 0.7 is 19600.
    assert_eq!(encoder.current_bitrate(), 19600);

    // Reset
    encoder.disable_adaptive_bitrate();
    assert_eq!(encoder.current_bitrate(), initial_bitrate);
}

#[test]
fn test_codec_manager() {
    let config = OpusConfig::default();
    let mut manager = OpusCodecManager::new(config).unwrap();

    let pcm = vec![100i16; 320];
    let opus = manager.encode(&pcm).unwrap();
    let decoded = manager.decode(&opus).unwrap();

    assert!(!decoded.is_empty());
}

#[test]
fn test_opus_config_default() {
    let config = OpusConfig::default();
    assert_eq!(config.sample_rate, 16000);
    assert_eq!(config.channels, 1);
    assert_eq!(config.bitrate, 28000);
    assert!(config.use_dtx);
    assert!(config.use_fec);
}

#[test]
fn test_candidate_types() {
    assert_eq!(CandidateType::Host.label(), "host");
    assert_eq!(CandidateType::ServerReflexive.label(), "srflx");
    assert_eq!(CandidateType::Relay.label(), "relay");
}

#[test]
fn test_candidate_priority() {
    let host = calculate_priority(CandidateType::Host, 1);
    let srflx = calculate_priority(CandidateType::ServerReflexive, 1);
    let relay = calculate_priority(CandidateType::Relay, 1);

    assert!(host > srflx);
    assert!(srflx > relay);
}

#[test]
fn test_stun_client() {
    let client = StunClient::new("stun.l.google.com:19302");
    assert_eq!(client.server_addr(), "stun.l.google.com:19302");
}

#[test]
fn test_peer_connection_creation() {
    let peer = PeerConnection::new("test-session".to_string());
    assert_eq!(peer.session_id(), "test-session");
    assert!(!peer.is_connected());
}

#[test]
fn test_set_remote_sdp() {
    let mut peer = PeerConnection::new("test".to_string());
    let sdp = "v=0\r\no=...".to_string();

    assert!(peer.set_remote_sdp(sdp.clone()).is_ok());
    assert_eq!(peer.remote_sdp(), Some(&sdp));
}

#[test]
fn test_create_answer() {
    let mut peer = PeerConnection::new("test".to_string());
    let answer = peer.create_answer();

    assert!(answer.is_ok());
    let answer_str = answer.unwrap();
    assert!(answer_str.contains("v=0"));
    assert!(answer_str.contains("opus"));
}

#[test]
fn test_rtp_packet_handling() {
    let mut peer = PeerConnection::new("test".to_string());

    // Create a valid RTP packet
    let rtp_data = vec![
        0x80, 0x6F, 0x00, 0x01, // Version=2, PT=111 (opus), seq=1
        0x00, 0x00, 0x00, 0x00, // Timestamp
        0x00, 0x00, 0x00, 0x01, // SSRC
        0xAA, 0xBB, 0xCC, 0xDD, // Payload (opus data)
    ];

    let result = peer.on_rtp_packet(&rtp_data);
    assert!(result.is_ok());
    assert_eq!(peer.packets_processed(), 1);
}

#[test]
fn test_get_ready_frames_moves_delivery_point() {
    let mut buffer = JitterBuffer::new(100, 16000);
    buffer.insert(1, vec![1]);
    buffer.insert(2, vec![2]);
    buffer.insert(3, vec![3]);

    let frames = buffer.get_ready_frames(2);
    assert_eq!(frames.len(), 2);
    // The delivery point is now the last popped sequence (2); a jump to 5
    // counts the two packets 3 and 4 as the forward gap.
    buffer.insert(5, vec![5]);
    assert_eq!(buffer.packets_lost(), 2);
}

#[test]
fn test_codec_manager_counters() {
    let config = OpusConfig::default();
    let mut manager = OpusCodecManager::new(config).unwrap();

    assert_eq!(manager.encoder().frames_encoded(), 0);
    assert_eq!(manager.decoder().frames_decoded(), 0);

    let pcm = vec![100i16; 320];
    let opus = manager.encode(&pcm).unwrap();
    manager.decode(&opus).unwrap();
    assert!(manager.encode(&[]).is_err());
    assert!(manager.decode(&[]).is_err());

    assert_eq!(manager.encoder().frames_encoded(), 1);
    assert_eq!(manager.decoder().frames_decoded(), 1);
}

#[test]
fn test_peer_buffer_stats_match_buffer() {
    let mut peer = PeerConnection::new("stats".to_string());

    // Two packets in, one frame popped by the pipeline on each datagram:
    // the second datagram jumps ahead, so one resident remains after it.
    let mut first = vec![
        0x80, 0x6F, 0x00, 0x01, 0x00, 0x00, 0x00, 0x00, 0x00, 0x00, 0x00, 0x01,
    ];
    first.push(0xAA);
    let mut third = vec![
        0x80, 0x6F, 0x00, 0x03, 0x00, 0x00, 0x00, 0x00, 0x00, 0x00, 0x00, 0x01,
    ];
    third.push(0xBB);

    assert!(peer.on_rtp_packet(&first).unwrap().is_some());
    assert!(peer.on_rtp_packet(&third).unwrap().is_some());

    let stats = peer.get_buffer_stats();
    // Both datagrams were drained immediately; one packet (seq 2) counted
    // lost out of two received: 1000 * 1 / 3 = 333 per-mille.
    assert_eq!(stats.size, 0);
    assert_eq!(stats.level_percent, 0);
    assert_eq!(stats.packet_loss_permille, 333);
}

#[test]
fn test_on_rtp_packet_empty_payload() {
    let mut peer = PeerConnection::new("empty".to_string());
    // A header-only datagram stores an empty payload, which the decoder
    // then refuses.
    let header_only = vec![
        0x80, 0x6F, 0x00, 0x01, 0x00, 0x00, 0x00, 0x00, 0x00, 0x00, 0x00, 0x01,
    ];
    let r = peer.on_rtp_packet(&header_only);
    assert!(matches!(r, Err(AmwajError::EmptyPayload)));
    assert_eq!(peer.packets_processed(), 1);
}
