use kiku_voice::audio::AudioRecorder;
use kiku_voice::resample::convert;

#[test]
fn same_rate_returns_identical_copy() {
    let samples: Vec<i16> = vec![5, -3, 0, 32767, -32768, 12];
    assert_eq!(convert(&samples, 16000, 16000), samples);
    assert_eq!(convert(&[], 16000, 16000), Vec::<i16>::new());
    assert_eq!(convert(&samples, 44100, 44100), samples);
}

#[test]
fn decimation_picks_every_third_sample() {
    let samples: Vec<i16> = (0..10).collect();
    assert_eq!(convert(&samples, 48000, 16000), vec![0, 3, 6]);
    let samples: Vec<i16> = (0..12).collect();
    assert_eq!(convert(&samples, 48000, 16000), vec![0, 3, 6, 9]);
}

#[test]
fn decimation_length_is_at_most_a_third() {
    for n in 0..50usize {
        let samples = vec![1i16; n];
        assert!(convert(&samples, 48000, 16000).len() <= n / 3);
    }
}

#[test]
fn upsampling_repeats_preceding_sample() {
    assert_eq!(convert(&[1, 2, 3], 8000, 16000), vec![1, 1, 2, 2, 3, 3]);
}

#[test]
fn non_integer_ratio_uses_floor() {
    // ratio 2.75625: length floor(10 / 2.75625) = 3, indices 0, 2, 5
    let samples: Vec<i16> = (0..10).map(|x| x * 10).collect();
    assert_eq!(convert(&samples, 44100, 16000), vec![0, 20, 50]);
}

#[test]
fn recorder_converts_to_16khz() {
    let recorder = AudioRecorder::new();
    let samples: Vec<i16> = (0..9).collect();
    assert_eq!(recorder.convert_to_16khz_mono(&samples, 48000), vec![0, 3, 6]);
    assert_eq!(recorder.convert_to_16khz_mono(&samples, 16000), samples);
}
