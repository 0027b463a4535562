use amwaj_media::{
    calculate_volume, calculate_zero_crossing_rate, estimate_pitch, extract_features, pcm_rescale,
    AudioFeatures, AudioProcessor, VoiceActivityDetector, VoiceIsolation, VoiceIsolationConfig,
    SILENCE_DB,
};

#[test]
fn test_audio_processor_creation() {
    let processor = AudioProcessor::new(16000, 320);
    assert_eq!(processor.sample_rate(), 16000);
    assert_eq!(processor.frame_size(), 320);
}

#[test]
fn test_vad_detection_silence() {
    let mut vad = VoiceActivityDetector::new(16000);
    let silent_audio = vec![0i16; 320];

    let prob = vad.process(&silent_audio);
    assert!(prob < 500);
}

#[test]
fn test_vad_detection_voice() {
    let mut vad = VoiceActivityDetector::new(16000);

    // "Voice-like" signal: half amplitude, high energy.
    let voice_audio = vec![16384i16; 320];

    let prob = vad.process(&voice_audio);
    assert!(prob > 500);
}

#[test]
fn audio_tests_test_volume_calculation() {
    // Samples at a tenth of full scale.
    let audio = vec![3277i16; 320];
    let volume = calculate_volume(&audio);

    assert!(volume < 0); // dB of a weak signal is negative
}

#[test]
fn test_volume_silence() {
    let audio = vec![0i16; 320];
    let volume = calculate_volume(&audio);

    assert_eq!(volume, SILENCE_DB);
}

#[test]
fn audio_tests_test_zero_crossing_rate() {
    // High frequency alternating signal
    let audio: Vec<i16> = (0..320).map(|i| if i % 2 == 0 { 16384 } else { -16384 }).collect();
    let zcr = calculate_zero_crossing_rate(&audio);
    assert!(zcr > 900);
}

#[test]
fn test_frame_processing_pipeline() {
    let mut processor = AudioProcessor::new(16000, 320);
    let pcm_data = vec![100i16; 320];

    let result = processor.process_frame(&pcm_data);
    assert!(result.is_ok());

    let frame = result.unwrap();
    assert!(frame.vad_probability <= 1000);
    assert_eq!(frame.pcm.len(), 320);
}

#[test]
fn test_audio_features_extraction() {
    // Samples at a tenth of full scale.
    let audio = vec![3277i16; 320];
    let features = extract_features(&audio, 16000);

    assert!(features.volume_db < 0);
    assert_eq!(features.zero_crossing_rate, 0);
}

#[test]
fn test_multiple_frames() {
    let mut processor = AudioProcessor::new(16000, 320);

    for i in 0..10 {
        let pcm_data = vec![(i * 100) as i16; 320];
        let result = processor.process_frame(&pcm_data);
        assert!(result.is_ok());
    }

    assert_eq!(processor.frames_processed(), 10);
}

#[test]
fn test_processor_reset() {
    let mut processor = AudioProcessor::new(16000, 320);

    processor.process_frame(&vec![100i16; 320]).unwrap();
    assert_eq!(processor.frames_processed(), 1);

    processor.reset();
    assert_eq!(processor.frames_processed(), 0);
}

#[test]
fn test_calculate_volume_silence() {
    let audio = vec![0i16; 320];
    let vol = calculate_volume(&audio);
    assert!(vol == SILENCE_DB);
}

#[test]
fn test_calculate_volume_signal() {
    // Samples at a tenth of full scale: close to -20 dB.
    let audio = vec![3277i16; 320];
    let vol = calculate_volume(&audio);
    assert!(vol < 0); // dB of 0.1 RMS should be negative
    assert!(vol > -30_000); // But not too negative
}

#[test]
fn test_volume_near_full_scale() {
    let audio = vec![32767i16; 320];
    let vol = calculate_volume(&audio);
    // RMS within a hair of full scale: between -0.01 dB and 0 dB.
    assert!(-10 <= vol && vol <= 0);
}

#[test]
fn features_test_zero_crossing_rate() {
    // Alternating signal has high ZCR
    let audio: Vec<i16> = (0..100).map(|i| if i % 2 == 0 { 16384 } else { -16384 }).collect();
    let zcr = calculate_zero_crossing_rate(&audio);
    assert!(zcr > 900);
    assert_eq!(zcr, 1000);
}

#[test]
fn test_features_default() {
    let features = AudioFeatures::default();
    assert_eq!(features.volume_db, 0);
    assert_eq!(features.pitch_hz, 0);
}

#[test]
fn test_is_likely_speech_thresholds() {
    let mut f = AudioFeatures::new();
    f.pitch_hz = 200_000;
    f.volume_db = -20_000;
    assert!(f.is_likely_speech());
    f.pitch_hz = 0;
    assert!(!f.is_likely_speech());
    f.pitch_hz = 200_000;
    f.volume_db = -60_000;
    assert!(!f.is_likely_speech());
}

#[test]
fn test_pitch_estimate_square_wave() {
    // Square wave with a period of 100 samples at 16 kHz: 160 Hz.
    let audio: Vec<i16> = (0..640).map(|i| if (i / 50) % 2 == 0 { 8000 } else { -8000 }).collect();
    let pitch = estimate_pitch(&audio, 16000);
    assert_eq!(pitch, 160_000);
}

#[test]
fn test_pitch_short_frame_gives_none() {
    let audio = vec![1000i16; 80];
    assert_eq!(estimate_pitch(&audio, 16000), 0);
}

#[test]
fn test_pitch_silence_gives_none() {
    let audio = vec![0i16; 640];
    assert_eq!(estimate_pitch(&audio, 16000), 0);
}

#[test]
fn test_pcm_conversion_roundtrip() {
    let original = vec![100i16, -200, 32000, -32000, 0];
    for &s in original.iter() {
        let back = pcm_rescale(s);
        assert!((s as i32 - back as i32).abs() <= 1); // Allow for rounding
    }
}

#[test]
fn test_processor_creation() {
    let processor = AudioProcessor::new(16000, 320);
    assert_eq!(processor.sample_rate(), 16000);
    assert_eq!(processor.frame_size(), 320);
    assert_eq!(processor.frames_processed(), 0);
}

#[test]
fn test_process_frame() {
    let mut processor = AudioProcessor::new(16000, 320);
    let pcm_data = vec![100i16; 320];

    let result = processor.process_frame(&pcm_data);
    assert!(result.is_ok());

    let frame = result.unwrap();
    assert_eq!(frame.pcm.len(), 320);
    assert!(frame.vad_probability <= 1000);
    assert_eq!(processor.frames_processed(), 1);
}

#[test]
fn test_process_silence() {
    let mut processor = AudioProcessor::new(16000, 320);
    let silent_data = vec![0i16; 320];

    let frame = processor.process_frame(&silent_data).unwrap();
    assert!(frame.vad_probability < 500);
}

#[test]
fn processor_test_volume_calculation() {
    // Samples at a tenth of full scale.
    let audio = vec![3277i16; 320];
    let vol = calculate_volume(&audio);
    assert!(vol < 0 && vol > -30_000);
}

#[test]
fn test_vad_creation() {
    let vad = VoiceActivityDetector::new(16000);
    assert_eq!(vad.sample_rate(), 16000);
    assert_eq!(vad.frames_processed(), 0);
}

#[test]
fn test_vad_silence() {
    let mut vad = VoiceActivityDetector::new(16000);
    let silent_audio = vec![0i16; 320];

    let prob = vad.process(&silent_audio);
    assert!(prob < 100);
}

#[test]
fn test_vad_voice() {
    let mut vad = VoiceActivityDetector::new(16000);

    // High-energy "voice" signal at half amplitude.
    let voice_audio = vec![16384i16; 320];

    let prob = vad.process(&voice_audio);
    assert!(prob > 500);
}

#[test]
fn test_vad_smoothing() {
    let mut vad = VoiceActivityDetector::new(16000);

    // Process silence then voice, check smoothing
    let _prob1 = vad.process(&vec![0i16; 320]);
    let prob2 = vad.process(&vec![16384i16; 320]);

    // Due to smoothing, prob2 shouldn't immediately jump to max
    assert!(prob2 > 0 && prob2 < 1000);
}

#[test]
fn test_vad_reset() {
    let mut vad = VoiceActivityDetector::new(16000);

    vad.process(&vec![16384i16; 320]);
    assert!(vad.frames_processed() > 0);

    vad.reset();
    assert_eq!(vad.frames_processed(), 0);
}

#[test]
fn test_vad_adapt_threshold() {
    let mut vad = VoiceActivityDetector::with_threshold(16000, 1_000_000);
    // A noise floor of half full scale squared pushes the threshold far up:
    // the same half-amplitude signal no longer crosses it.
    vad.adapt_threshold(250_000_000);
    let prob = vad.process(&vec![16384i16; 320]);
    assert_eq!(prob, 0);
}

#[test]
fn test_voice_isolation_creation() {
    let vi = VoiceIsolation::new("model.onnx".to_string());
    assert!(vi.is_ok());

    let vi = vi.unwrap();
    assert!(vi.is_enabled());
    assert_eq!(vi.model_path(), "model.onnx");
}

#[test]
fn test_config_defaults() {
    let config = VoiceIsolationConfig::default();
    assert_eq!(config.sample_rate, 16000);
    assert!(!config.use_gpu);
    assert_eq!(config.batch_size, 1);
}

#[test]
fn test_isolate_passthrough() {
    let mut vi = VoiceIsolation::new("model.onnx".to_string()).unwrap();
    let audio = vec![16384i16; 320];

    let result = vi.isolate_i16(&audio);
    assert!(result.is_ok());

    let output = result.unwrap();
    assert_eq!(output.len(), 320);
    assert_eq!(vi.frames_processed(), 1);
}

#[test]
fn test_disable_isolation() {
    let mut vi = VoiceIsolation::new("model.onnx".to_string()).unwrap();
    let audio = vec![16384i16; 320];

    vi.set_enabled(false);
    assert!(!vi.is_enabled());

    let result = vi.isolate_i16(&audio).unwrap();
    // Disabled isolation only makes the float round trip per sample.
    assert_eq!(result.len(), 320);
    for (&a, &b) in audio.iter().zip(result.iter()) {
        assert!((a as i32 - b as i32).abs() <= 1);
    }
}

#[test]
fn test_i16_processing() {
    let mut vi = VoiceIsolation::new("model.onnx".to_string()).unwrap();
    let audio = vec![16000i16; 320];

    let result = vi.isolate_i16(&audio);
    assert!(result.is_ok());
    assert_eq!(result.unwrap().len(), 320);
}

#[test]
fn test_noise_gate_attenuates_quiet_samples() {
    let mut vi = VoiceIsolation::new("model.onnx".to_string()).unwrap();
    // Below the 0.02 threshold (656): attenuated to a tenth.
    let audio = vec![500i16; 4];
    let out = vi.isolate_i16(&audio).unwrap();
    // 500 * 32767 / 327680 truncates to 49.
    assert_eq!(out, vec![49i16; 4]);
    // Above the threshold: passes through the float round trip.
    let loud = vec![1000i16; 4];
    let out_loud = vi.isolate_i16(&loud).unwrap();
    assert_eq!(out_loud, vec![999i16; 4]);
}

#[test]
fn voice_isolation_test_reset() {
    let mut vi = VoiceIsolation::new("model.onnx".to_string()).unwrap();

    vi.isolate_i16(&vec![3277i16; 320]).unwrap();
    vi.isolate_i16(&vec![3277i16; 320]).unwrap();
    assert_eq!(vi.frames_processed(), 2);

    vi.reset();
    assert_eq!(vi.frames_processed(), 0);
}
