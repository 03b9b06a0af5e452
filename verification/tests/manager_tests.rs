use speech_core::catalog::WhisperModel;
use speech_core::manager::ModelManager;

fn fresh_manager() -> ModelManager {
    ModelManager::new(String::from("/home/user/.local/share/app/whisper-models"))
}

#[test]
fn new_manager_tracks_nothing_installed() {
    let m = fresh_manager();
    for v in WhisperModel::all() {
        assert!(!m.is_model_available(v));
    }
    assert!(m.get_available_models().is_empty());
    assert_eq!(
        m.models_directory(),
        "/home/user/.local/share/app/whisper-models"
    );
}

#[test]
fn model_path_joins_directory_and_filename() {
    let m = fresh_manager();
    assert_eq!(
        m.get_model_path(WhisperModel::Turbo),
        "/home/user/.local/share/app/whisper-models/ggml-large-v3-turbo.bin"
    );
    assert_eq!(
        m.get_model_path(WhisperModel::Tiny),
        "/home/user/.local/share/app/whisper-models/ggml-tiny.bin"
    );
}

#[test]
fn model_path_is_stable_across_calls() {
    let m = fresh_manager();
    for v in WhisperModel::all() {
        assert_eq!(m.get_model_path(v), m.get_model_path(v));
    }
}

#[test]
fn model_paths_are_unique_per_variant() {
    let m = fresh_manager();
    let all = WhisperModel::all();
    for (i, a) in all.iter().enumerate() {
        for (j, b) in all.iter().enumerate() {
            if i != j {
                assert_ne!(m.get_model_path(*a), m.get_model_path(*b));
            }
        }
    }
}

#[test]
fn temp_path_replaces_the_extension() {
    let m = fresh_manager();
    assert_eq!(
        m.temp_download_path(WhisperModel::Tiny),
        "/home/user/.local/share/app/whisper-models/ggml-tiny.downloading"
    );
    assert_eq!(
        m.temp_download_path(WhisperModel::Turbo),
        "/home/user/.local/share/app/whisper-models/ggml-large-v3-turbo.downloading"
    );
}

#[test]
fn record_chunk_reports_cumulative_progress() {
    let mut m = fresh_manager();
    m.begin_download(WhisperModel::Base, 100);
    assert_eq!(m.record_chunk(WhisperModel::Base, 60), (60, 100));
    assert_eq!(m.record_chunk(WhisperModel::Base, 40), (100, 100));
}

#[test]
fn record_chunk_with_unknown_total_reports_zero_total() {
    let mut m = fresh_manager();
    m.begin_download(WhisperModel::Base, 0);
    assert_eq!(m.record_chunk(WhisperModel::Base, 8192), (8192, 0));
    assert_eq!(m.record_chunk(WhisperModel::Base, 8192), (16384, 0));
}

#[test]
fn interrupted_download_leaves_canonical_path_absent() {
    let mut m = fresh_manager();
    m.begin_download(WhisperModel::Turbo, 1000);
    m.record_chunk(WhisperModel::Turbo, 400);
    m.record_chunk(WhisperModel::Turbo, 100);
    m.abort_download(WhisperModel::Turbo);
    assert!(!m.is_model_available(WhisperModel::Turbo));
    assert!(m.get_available_models().is_empty());
}

#[test]
fn only_a_completed_transfer_installs() {
    let mut m = fresh_manager();
    m.begin_download(WhisperModel::Turbo, 1000);
    m.record_chunk(WhisperModel::Turbo, 500);
    assert!(!m.is_model_available(WhisperModel::Turbo));
    m.record_chunk(WhisperModel::Turbo, 500);
    assert!(!m.is_model_available(WhisperModel::Turbo));
    m.complete_download(WhisperModel::Turbo);
    assert!(m.is_model_available(WhisperModel::Turbo));
    assert_eq!(m.get_available_models(), vec![WhisperModel::Turbo]);
}

#[test]
fn turbo_status_before_and_after_download() {
    let mut m = fresh_manager();

    let before = m.get_all_models_status();
    let turbo_before = before
        .iter()
        .find(|s| s.model == WhisperModel::Turbo)
        .unwrap();
    assert!(!turbo_before.is_downloaded);
    assert_eq!(turbo_before.size_mb, 809);

    m.begin_download(WhisperModel::Turbo, 848_000_000);
    m.record_chunk(WhisperModel::Turbo, 848_000_000);
    m.complete_download(WhisperModel::Turbo);

    let after = m.get_all_models_status();
    let turbo_after = after
        .iter()
        .find(|s| s.model == WhisperModel::Turbo)
        .unwrap();
    assert!(turbo_after.is_downloaded);
    assert_eq!(turbo_after.size_mb, 809);
    assert_eq!(turbo_after.display_name, turbo_before.display_name);
}

#[test]
fn status_snapshot_covers_every_variant_in_order() {
    let m = fresh_manager();
    let statuses = m.get_all_models_status();
    let all = WhisperModel::all();
    assert_eq!(statuses.len(), all.len());
    for (s, v) in statuses.iter().zip(all.iter()) {
        assert_eq!(s.model, *v);
        assert!(!s.is_downloaded);
        assert_eq!(s.size_mb, v.size_mb());
        assert_eq!(s.display_name, v.display_name());
    }
}

#[test]
fn delete_is_idempotent_and_uninstalls() {
    let mut m = fresh_manager();
    m.delete_model(WhisperModel::Small);
    assert!(!m.is_model_available(WhisperModel::Small));

    m.begin_download(WhisperModel::Small, 10);
    m.record_chunk(WhisperModel::Small, 10);
    m.complete_download(WhisperModel::Small);
    assert!(m.is_model_available(WhisperModel::Small));

    m.delete_model(WhisperModel::Small);
    assert!(!m.is_model_available(WhisperModel::Small));
    m.delete_model(WhisperModel::Small);
    assert!(!m.is_model_available(WhisperModel::Small));
}

#[test]
fn note_installed_records_files_found_on_disk() {
    let mut m = fresh_manager();
    m.note_installed(WhisperModel::Tiny);
    m.note_installed(WhisperModel::Large);
    assert!(m.is_model_available(WhisperModel::Tiny));
    assert!(m.is_model_available(WhisperModel::Large));
    assert!(!m.is_model_available(WhisperModel::Turbo));
    assert_eq!(
        m.get_available_models(),
        vec![WhisperModel::Tiny, WhisperModel::Large]
    );
}

#[test]
fn aborting_one_download_leaves_other_variants_alone() {
    let mut m = fresh_manager();
    m.note_installed(WhisperModel::Base);
    m.begin_download(WhisperModel::Turbo, 100);
    m.record_chunk(WhisperModel::Turbo, 50);
    m.abort_download(WhisperModel::Turbo);
    assert!(m.is_model_available(WhisperModel::Base));
    assert!(!m.is_model_available(WhisperModel::Turbo));
}

#[test]
fn redownload_over_installed_file_keeps_it_until_completion() {
    let mut m = fresh_manager();
    m.note_installed(WhisperModel::Base);
    m.begin_download(WhisperModel::Base, 100);
    assert!(m.is_model_available(WhisperModel::Base));
    m.record_chunk(WhisperModel::Base, 100);
    assert!(m.is_model_available(WhisperModel::Base));
    m.abort_download(WhisperModel::Base);
    assert!(m.is_model_available(WhisperModel::Base));
}
