use speech_core::catalog::WhisperModel;
use speech_core::errors::SpeechError;

#[test]
fn filenames_are_canonical() {
    assert_eq!(WhisperModel::Tiny.filename(), "ggml-tiny.bin");
    assert_eq!(WhisperModel::Base.filename(), "ggml-base.bin");
    assert_eq!(WhisperModel::Small.filename(), "ggml-small.bin");
    assert_eq!(WhisperModel::Medium.filename(), "ggml-medium.bin");
    assert_eq!(WhisperModel::Turbo.filename(), "ggml-large-v3-turbo.bin");
    assert_eq!(WhisperModel::Large.filename(), "ggml-large-v3.bin");
}

#[test]
fn download_urls_point_at_canonical_files() {
    assert_eq!(
        WhisperModel::Tiny.download_url(),
        "https://huggingface.co/ggerganov/whisper.cpp/resolve/main/ggml-tiny.bin"
    );
    assert_eq!(
        WhisperModel::Turbo.download_url(),
        "https://huggingface.co/ggerganov/whisper.cpp/resolve/main/ggml-large-v3-turbo.bin"
    );
    for m in WhisperModel::all() {
        let url = m.download_url();
        assert!(url.ends_with(m.filename()));
        assert!(url.starts_with("https://huggingface.co/"));
    }
}

#[test]
fn sizes_are_the_catalog_sizes() {
    assert_eq!(WhisperModel::Tiny.size_mb(), 75);
    assert_eq!(WhisperModel::Base.size_mb(), 142);
    assert_eq!(WhisperModel::Small.size_mb(), 466);
    assert_eq!(WhisperModel::Medium.size_mb(), 1500);
    assert_eq!(WhisperModel::Turbo.size_mb(), 809);
    assert_eq!(WhisperModel::Large.size_mb(), 3100);
}

#[test]
fn display_names_are_stable() {
    assert_eq!(WhisperModel::Tiny.display_name(), "Tiny (75MB)");
    assert_eq!(WhisperModel::Turbo.display_name(), "Turbo (809MB) - 推荐");
}

#[test]
fn all_lists_every_variant_in_catalog_order() {
    let all = WhisperModel::all();
    assert_eq!(
        all,
        vec![
            WhisperModel::Tiny,
            WhisperModel::Base,
            WhisperModel::Small,
            WhisperModel::Medium,
            WhisperModel::Turbo,
            WhisperModel::Large,
        ]
    );
}

#[test]
fn filenames_are_unique_per_variant() {
    let all = WhisperModel::all();
    for (i, a) in all.iter().enumerate() {
        for (j, b) in all.iter().enumerate() {
            if i != j {
                assert_ne!(a.filename(), b.filename());
            }
        }
    }
}

#[test]
fn from_key_resolves_every_stable_identifier() {
    for m in WhisperModel::all() {
        assert_eq!(WhisperModel::from_key(m.key()), Ok(m));
    }
    assert_eq!(WhisperModel::from_key("turbo"), Ok(WhisperModel::Turbo));
}

#[test]
fn from_key_rejects_unknown_keys() {
    assert_eq!(WhisperModel::from_key("huge"), Err(SpeechError::InvalidModel));
    assert_eq!(WhisperModel::from_key(""), Err(SpeechError::InvalidModel));
    assert_eq!(WhisperModel::from_key("Turbo"), Err(SpeechError::InvalidModel));
    assert_eq!(WhisperModel::from_key("tiny "), Err(SpeechError::InvalidModel));
}

#[test]
fn default_variant_is_turbo() {
    assert_eq!(WhisperModel::default(), WhisperModel::Turbo);
}
