use speech_core::errors::SpeechError;
use speech_core::resample::{prepare_resample, ResampleDecision, WHISPER_SAMPLE_RATE};

#[test]
fn target_rate_is_sixteen_kilohertz() {
    assert_eq!(WHISPER_SAMPLE_RATE, 16000);
}

#[test]
fn one_second_at_44100_converts_to_16000_samples() {
    let d = prepare_resample(44100, 44100, 16000).unwrap();
    assert_eq!(d, ResampleDecision::Convert { expected_output_len: 16000 });
}

#[test]
fn one_second_at_48000_converts_to_16000_samples() {
    let d = prepare_resample(48000, 48000, 16000).unwrap();
    assert_eq!(d, ResampleDecision::Convert { expected_output_len: 16000 });
}

#[test]
fn matching_rates_pass_through() {
    let d = prepare_resample(16000, 16000, 16000).unwrap();
    assert_eq!(d, ResampleDecision::Passthrough);
    let d = prepare_resample(7, 44100, 44100).unwrap();
    assert_eq!(d, ResampleDecision::Passthrough);
}

#[test]
fn expected_length_rounds_down() {
    // 3 samples scaled by 3/2 is 4.5, which rounds down to 4.
    let d = prepare_resample(3, 2, 3).unwrap();
    assert_eq!(d, ResampleDecision::Convert { expected_output_len: 4 });
    // 44100 samples scaled by 22050/44100 is exactly half.
    let d = prepare_resample(44100, 44100, 22050).unwrap();
    assert_eq!(d, ResampleDecision::Convert { expected_output_len: 22050 });
}

#[test]
fn empty_input_is_an_invalid_configuration() {
    assert_eq!(prepare_resample(0, 44100, 16000), Err(SpeechError::Resample));
}

#[test]
fn zero_rates_are_invalid_configurations() {
    assert_eq!(prepare_resample(100, 0, 16000), Err(SpeechError::Resample));
    assert_eq!(prepare_resample(100, 44100, 0), Err(SpeechError::Resample));
    assert_eq!(prepare_resample(0, 0, 0), Err(SpeechError::Resample));
}
