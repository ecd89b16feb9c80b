use kiku_voice::audio::AudioRecorder;
use kiku_voice::error::VoiceError;

#[test]
fn stop_without_start_returns_empty() {
    let mut recorder = AudioRecorder::new();
    assert!(recorder.stop_recording().is_empty());
    assert!(!recorder.is_recording());
    assert!(recorder.stop_recording().is_empty());
}

#[test]
fn restart_clears_previous_samples() {
    let mut recorder = AudioRecorder::new();
    recorder.start_recording(Ok(())).unwrap();
    recorder.push_samples(&[1, 2, 3]);
    recorder.start_recording(Ok(())).unwrap();
    assert!(recorder.get_current_samples().is_empty());
    recorder.push_samples(&[9]);
    assert_eq!(recorder.stop_recording(), vec![9]);
}

#[test]
fn samples_are_kept_in_order_while_recording() {
    let mut recorder = AudioRecorder::default();
    recorder.start_recording(Ok(())).unwrap();
    assert!(recorder.is_recording());
    recorder.push_samples(&[1, 2]);
    recorder.push_samples(&[]);
    recorder.push_samples(&[3, -4, 5]);
    assert_eq!(recorder.get_current_samples(), vec![1, 2, 3, -4, 5]);
    assert_eq!(recorder.sample_count(), 5);
    assert!(recorder.is_recording());
    assert_eq!(recorder.stop_recording(), vec![1, 2, 3, -4, 5]);
    assert!(!recorder.is_recording());
}

#[test]
fn samples_after_stop_are_dropped() {
    let mut recorder = AudioRecorder::new();
    recorder.push_samples(&[7, 7]);
    assert!(recorder.get_current_samples().is_empty());
    recorder.start_recording(Ok(())).unwrap();
    recorder.push_samples(&[1]);
    recorder.stop_recording();
    recorder.push_samples(&[2, 3]);
    assert_eq!(recorder.get_current_samples(), vec![1]);
    // stopping again returns the last capture
    assert_eq!(recorder.stop_recording(), vec![1]);
}

#[test]
fn device_failure_leaves_recorder_unchanged() {
    let mut recorder = AudioRecorder::new();
    recorder.start_recording(Ok(())).unwrap();
    recorder.push_samples(&[4, 5]);
    recorder.stop_recording();
    let r = recorder.start_recording(Err("No input device available".to_string()));
    match r {
        Err(VoiceError::DeviceUnavailable(msg)) => assert_eq!(msg, "No input device available"),
        other => panic!("unexpected {:?}", other),
    }
    assert!(!recorder.is_recording());
    assert_eq!(recorder.get_current_samples(), vec![4, 5]);
}

#[test]
fn latest_samples_takes_the_tail() {
    let mut recorder = AudioRecorder::new();
    recorder.start_recording(Ok(())).unwrap();
    recorder.push_samples(&[1, 2, 3, 4, 5]);
    assert_eq!(recorder.latest_samples(2), vec![4, 5]);
    assert_eq!(recorder.latest_samples(5), vec![1, 2, 3, 4, 5]);
    assert_eq!(recorder.latest_samples(9), vec![1, 2, 3, 4, 5]);
    assert_eq!(recorder.latest_samples(0), Vec::<i16>::new());
}

#[test]
fn device_choice_does_not_touch_capture() {
    let mut recorder = AudioRecorder::new();
    assert_eq!(recorder.device(), None);
    recorder.start_recording(Ok(())).unwrap();
    recorder.push_samples(&[1]);
    recorder.set_device(Some("USB Mic".to_string()));
    assert!(recorder.is_recording());
    assert_eq!(recorder.get_current_samples(), vec![1]);
    assert_eq!(recorder.device(), Some("USB Mic".to_string()));
    recorder.set_device(None);
    assert_eq!(recorder.device(), None);
}
