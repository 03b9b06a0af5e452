use speech_core::audio::AudioRecorder;
use speech_core::errors::SpeechError;

#[test]
fn fresh_recorder_is_idle() {
    let r = AudioRecorder::new(44100);
    assert!(!r.is_recording());
    assert_eq!(r.sample_rate(), 44100);
}

#[test]
fn start_twice_fails_with_state_error() {
    let mut r = AudioRecorder::new(44100);
    assert_eq!(r.start_recording(), Ok(()));
    assert!(r.is_recording());
    assert_eq!(r.start_recording(), Err(SpeechError::State));
    assert!(r.is_recording());
}

#[test]
fn stop_without_active_recording_fails_with_state_error() {
    let mut r = AudioRecorder::new(48000);
    match r.stop_recording() {
        Err(e) => assert_eq!(e, SpeechError::State),
        Ok(_) => panic!("stop on an idle recorder must fail"),
    }
}

#[test]
fn stop_after_stop_fails_with_state_error() {
    let mut r = AudioRecorder::new(48000);
    r.start_recording().unwrap();
    r.stop_recording().unwrap();
    match r.stop_recording() {
        Err(e) => assert_eq!(e, SpeechError::State),
        Ok(_) => panic!("second stop must fail"),
    }
}

#[test]
fn captured_batches_come_back_in_order() {
    let mut r = AudioRecorder::new(16000);
    r.start_recording().unwrap();
    r.capture_callback(&[1, 2]);
    r.capture_callback(&[3]);
    r.capture_callback(&[]);
    r.capture_callback(&[4, 5, 6]);
    let samples = r.stop_recording().unwrap();
    assert_eq!(samples, vec![1, 2, 3, 4, 5, 6]);
    assert!(!r.is_recording());
}

#[test]
fn batches_outside_a_session_are_discarded() {
    let mut r = AudioRecorder::new(16000);
    r.capture_callback(&[9, 9, 9]);
    r.start_recording().unwrap();
    r.capture_callback(&[1]);
    let samples = r.stop_recording().unwrap();
    assert_eq!(samples, vec![1]);

    r.capture_callback(&[7, 7]);
    r.start_recording().unwrap();
    let samples = r.stop_recording().unwrap();
    assert!(samples.is_empty());
}

#[test]
fn starting_again_clears_the_previous_buffer() {
    let mut r = AudioRecorder::new(22050);
    r.start_recording().unwrap();
    r.capture_callback(&[10, 20]);
    let first = r.stop_recording().unwrap();
    assert_eq!(first, vec![10, 20]);

    r.start_recording().unwrap();
    r.capture_callback(&[30]);
    let second = r.stop_recording().unwrap();
    assert_eq!(second, vec![30]);
}

#[test]
fn samples_carry_float_bit_patterns_faithfully() {
    let mut r = AudioRecorder::new(16000);
    r.start_recording().unwrap();
    let frames: Vec<f32> = vec![0.0, 0.5, -0.25, 1.0];
    let bits: Vec<u32> = frames.iter().map(|s| s.to_bits()).collect();
    r.capture_callback(&bits);
    let out = r.stop_recording().unwrap();
    let back: Vec<f32> = out.iter().map(|b| f32::from_bits(*b)).collect();
    assert_eq!(back, frames);
}
