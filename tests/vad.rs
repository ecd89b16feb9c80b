use kiku_voice::vad::{SilenceState, VoiceActivityDetector, DEFAULT_ENERGY_THRESHOLD, FRAME_SIZE};

/// A normalized amplitude on the 16-bit scale the library works in.
fn pcm(x: f32) -> i16 {
    (x * 32768.0).round() as i16
}

fn threshold(x: f32) -> u16 {
    (x * 32768.0).round() as u16
}

#[test]
fn test_silence_detection() {
    let vad = VoiceActivityDetector::new(threshold(0.01), 100, 16000);

    let silent_samples = vec![pcm(0.001); 512];
    assert_eq!(vad.is_voice_active(&silent_samples), false);

    let voice_samples = vec![pcm(0.1); 512];
    assert_eq!(vad.is_voice_active(&voice_samples), true);
}

#[test]
fn test_sustained_silence() {
    let mut vad = VoiceActivityDetector::new(threshold(0.01), 50, 16000);
    let silent_samples = vec![pcm(0.001); 512];

    // The k-th silent frame (k counted from 1) reports silence once k reaches the target.
    for i in 0..10u64 {
        let state = vad.process_frame(&silent_samples);
        if i + 1 < vad.silence_frame_target() {
            assert!(state != SilenceState::SilenceDetected);
        } else {
            assert_eq!(state, SilenceState::SilenceDetected);
        }
    }
}

#[test]
fn constant_frame_energy_is_its_magnitude() {
    let vad = VoiceActivityDetector::default();
    for a in [0i16, 1, 7, -7, 328, -1000, 32767, -32768] {
        let frame = vec![a; 512];
        assert_eq!(vad.calculate_energy(&frame), (a as i32).unsigned_abs());
    }
}

#[test]
fn energy_of_empty_frame_is_zero() {
    let vad = VoiceActivityDetector::default();
    assert_eq!(vad.calculate_energy(&[]), 0);
    assert!(!vad.is_voice_active(&[]));
}

#[test]
fn energy_rounds_root_mean_square_down() {
    let vad = VoiceActivityDetector::default();
    // mean square 12.5, root 3.53...
    assert_eq!(vad.calculate_energy(&[3, 4]), 3);
    // mean square 22.67, root 4.76
    assert_eq!(vad.calculate_energy(&[4, -4, 6, 4, -4, 6]), 4);
    assert_eq!(vad.calculate_energy(&[-5, 5, 5, -5]), 5);
}

#[test]
fn activity_is_a_threshold_on_magnitude() {
    let vad = VoiceActivityDetector::new(100, 1500, 16000);
    assert!(!vad.is_voice_active(&vec![100; 512]));
    assert!(!vad.is_voice_active(&vec![-100; 512]));
    assert!(vad.is_voice_active(&vec![101; 512]));
    assert!(vad.is_voice_active(&vec![-101; 512]));
    assert!(vad.is_voice_active(&vec![5000; 512]));
}

#[test]
fn silence_target_is_rounded_and_at_least_one() {
    assert_eq!(VoiceActivityDetector::new(1, 100, 16000).silence_frame_target(), 3);
    assert_eq!(VoiceActivityDetector::new(1, 50, 16000).silence_frame_target(), 2);
    assert_eq!(VoiceActivityDetector::new(1, 1500, 16000).silence_frame_target(), 47);
    assert_eq!(VoiceActivityDetector::new(1, 0, 16000).silence_frame_target(), 1);
    assert_eq!(VoiceActivityDetector::new(1, 10, 16000).silence_frame_target(), 1);
    assert_eq!(VoiceActivityDetector::new(1, u32::MAX, u32::MAX).silence_frame_target(), 36028797002187);
}

#[test]
fn silence_reported_exactly_at_target_frame() {
    let mut vad = VoiceActivityDetector::new(threshold(0.01), 100, 16000);
    assert_eq!(vad.silence_frame_target(), 3);
    let quiet = vec![0i16; FRAME_SIZE];
    assert_eq!(vad.process_frame(&quiet), SilenceState::PossibleSilence);
    assert_eq!(vad.process_frame(&quiet), SilenceState::PossibleSilence);
    assert!(!vad.is_silence_detected());
    assert_eq!(vad.process_frame(&quiet), SilenceState::SilenceDetected);
    assert!(vad.is_silence_detected());
    assert_eq!(vad.process_frame(&quiet), SilenceState::SilenceDetected);
    assert_eq!(vad.silent_frames(), 4);
}

#[test]
fn voice_frame_resets_silence_count() {
    let mut vad = VoiceActivityDetector::new(threshold(0.01), 100, 16000);
    let quiet = vec![pcm(0.001); FRAME_SIZE];
    let loud = vec![pcm(0.5); FRAME_SIZE];
    for _ in 0..5 {
        vad.process_frame(&quiet);
    }
    assert_eq!(vad.silent_frames(), 5);
    assert_eq!(vad.process_frame(&loud), SilenceState::Voice);
    assert_eq!(vad.silent_frames(), 0);
    assert_eq!(vad.process_frame(&quiet), SilenceState::PossibleSilence);
}

#[test]
fn reset_keeps_configuration() {
    let mut vad = VoiceActivityDetector::new(threshold(0.01), 100, 16000);
    let quiet = vec![0i16; FRAME_SIZE];
    vad.process_frame(&quiet);
    vad.process_frame(&quiet);
    vad.reset();
    assert_eq!(vad.silent_frames(), 0);
    assert_eq!(vad.silence_frame_target(), 3);
    assert_eq!(vad.frame_size(), 512);
}

#[test]
fn default_detector_configuration() {
    let vad = VoiceActivityDetector::default();
    assert_eq!(DEFAULT_ENERGY_THRESHOLD, threshold(0.01));
    assert_eq!(vad.silence_frame_target(), 47);
    assert_eq!(vad.frame_size(), FRAME_SIZE);
}
