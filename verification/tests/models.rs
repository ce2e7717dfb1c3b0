use prollyglot_runtime::models::{
    progress_message, require_catalog_ready, require_model_changes_allowed, require_no_download,
    require_stopped, should_publish_progress, verifying_message, ModelFamily,
    inspection_failure_catalog, ready_visual_model, selected_model_id, visual_inspection_failure,
    ModelCatalogStatus, ModelPhase, ModelStatus, TranslationModelPhase, TranslationStorageCatalog,
    TranslationStorageStatus, VisualModelCatalogStatus, VisualModelPhase, VisualModelStatus,
};

fn speech_model(id: &str, phase: ModelPhase, languages: &[&str]) -> ModelStatus {
    ModelStatus {
        phase,
        model_id: id.into(),
        display_name: format!("Model {id}"),
        profile: "Fast".into(),
        description: "Local streaming captions.".into(),
        languages: languages.iter().map(|language| language.to_string()).collect(),
        downloaded_bytes: 0,
        total_bytes: 1_000,
        message: None,
    }
}

fn catalog() -> ModelCatalogStatus {
    ModelCatalogStatus {
        selected_model_id: "en-small".into(),
        models: vec![
            speech_model("en-small", ModelPhase::Ready, &["en"]),
            speech_model("multi", ModelPhase::NotInstalled, &["en", "ja"]),
        ],
    }
}

#[test]
fn the_selected_model_must_be_installed_and_speak_the_language() {
    assert_eq!(selected_model_id(&catalog(), "en"), Ok("en-small".to_string()));
    assert_eq!(
        selected_model_id(&catalog(), "ja"),
        Err("Model en-small does not support the selected spoken language.".to_string())
    );
    let mut other = catalog();
    other.selected_model_id = "multi".into();
    assert_eq!(
        selected_model_id(&other, "ja"),
        Err("Install Model multi before starting captions.".to_string())
    );
    other.selected_model_id = "missing".into();
    assert_eq!(
        selected_model_id(&other, "en"),
        Err("The selected speech model is unavailable.".to_string())
    );
}

#[test]
fn model_progress_is_clamped_to_the_model_size() {
    let mut status = catalog();
    assert!(status.update_model("multi", ModelPhase::Downloading, 5_000, Some("Downloading".into())));
    assert_eq!(status.models[1].phase, ModelPhase::Downloading);
    assert_eq!(status.models[1].downloaded_bytes, 1_000);
    assert_eq!(status.models[1].message.as_deref(), Some("Downloading"));
    assert_eq!(status.models[0].phase, ModelPhase::Ready);
    assert!(!status.update_model("missing", ModelPhase::Failed, 0, None));
    assert_eq!(status.models.len(), 2);
}

#[test]
fn an_inspection_failure_marks_only_the_selected_model() {
    let failed = inspection_failure_catalog(catalog(), "multi".into(), "disk error".into());
    assert_eq!(failed.selected_model_id, "multi");
    assert_eq!(failed.models[0].phase, ModelPhase::Ready);
    assert_eq!(failed.models[1].phase, ModelPhase::Failed);
    assert_eq!(failed.models[1].message.as_deref(), Some("disk error"));
    let unknown = inspection_failure_catalog(catalog(), "missing".into(), "disk error".into());
    assert!(unknown.models.iter().all(|model| model.phase != ModelPhase::Failed));
}

fn visual_catalog(phase: VisualModelPhase) -> VisualModelCatalogStatus {
    VisualModelCatalogStatus {
        models: vec![VisualModelStatus {
            phase,
            model_id: "ocr".into(),
            display_name: "Visual OCR".into(),
            profile: "Visual OCR · Balanced".into(),
            description: "Detects text.".into(),
            languages: vec!["en".into(), "ja".into()],
            downloaded_bytes: 0,
            total_bytes: 10,
            message: None,
        }],
    }
}

#[test]
fn visual_translation_needs_the_installed_recognition_model() {
    assert_eq!(ready_visual_model(&visual_catalog(VisualModelPhase::Ready), "ocr"), Ok(()));
    assert_eq!(
        ready_visual_model(&visual_catalog(VisualModelPhase::Corrupt), "ocr"),
        Err("Install Visual OCR in Settings before starting visual translation.".to_string())
    );
    assert_eq!(
        ready_visual_model(&visual_catalog(VisualModelPhase::Ready), "other"),
        Err("The visual recognition model is unavailable.".to_string())
    );
    let mut catalog = visual_catalog(VisualModelPhase::NotInstalled);
    catalog.update_model("ocr", VisualModelPhase::Downloading, 25, None);
    assert_eq!(catalog.models[0].downloaded_bytes, 25);
    let failed = visual_inspection_failure(catalog, "unreadable".into());
    assert_eq!(failed.models[0].phase, VisualModelPhase::Failed);
    assert_eq!(failed.models[0].message.as_deref(), Some("unreadable"));
}

#[test]
fn translation_storage_is_served_only_when_ready() {
    let mut catalog = TranslationStorageCatalog {
        models: vec![TranslationStorageStatus {
            phase: TranslationModelPhase::NotInstalled,
            storage_id: "translation-opus-mt-ja-en".into(),
            downloaded_bytes: 0,
            total_bytes: 300,
            message: None,
        }],
    };
    assert!(!catalog.is_ready("translation-opus-mt-ja-en"));
    assert!(catalog.update_model("translation-opus-mt-ja-en", TranslationModelPhase::Ready, 900, None));
    assert_eq!(catalog.models[0].downloaded_bytes, 300);
    assert!(catalog.is_ready("translation-opus-mt-ja-en"));
    assert!(!catalog.is_ready("translation-other"));
    let failed = catalog.inspection_failure("broken".into());
    assert_eq!(failed.models.len(), 1);
    assert_eq!(failed.models[0].phase, TranslationModelPhase::Failed);
    assert_eq!(failed.models[0].downloaded_bytes, 0);
    assert_eq!(failed.models[0].total_bytes, 300);
    assert_eq!(failed.models[0].message.as_deref(), Some("broken"));
}

#[test]
fn model_changes_wait_for_checks_downloads_and_sessions() {
    assert_eq!(require_stopped(ModelFamily::Speech, false), Ok(()));
    assert_eq!(
        require_stopped(ModelFamily::Speech, true),
        Err("Stop captions and visual translation before changing local speech models.".into())
    );
    assert_eq!(
        require_stopped(ModelFamily::Translation, true),
        Err("Stop captions or screen translation before changing translation models.".into())
    );
    assert_eq!(require_catalog_ready(ModelFamily::Translation, false), Ok(()));
    assert_eq!(
        require_catalog_ready(ModelFamily::Speech, true),
        Err("Wait for Prollyglot to finish checking the installed speech models.".into())
    );
    assert_eq!(
        require_catalog_ready(ModelFamily::Translation, true),
        Err("Wait for Prollyglot to finish checking native translation models.".into())
    );
    assert_eq!(require_model_changes_allowed(false, false, false), Ok(()));
    assert_eq!(
        require_model_changes_allowed(true, true, true),
        Err("Wait for Prollyglot to finish checking the visual recognition model.".into())
    );
    assert_eq!(
        require_model_changes_allowed(false, true, true),
        Err("Wait for the visual recognition model download to finish.".into())
    );
    assert_eq!(
        require_model_changes_allowed(false, false, true),
        Err("Stop captions and visual translation before changing visual models.".into())
    );
}

#[test]
fn downloads_run_one_at_a_time_and_report_progress_sparingly() {
    assert_eq!(require_no_download(ModelFamily::Speech, false), Ok(()));
    assert_eq!(
        require_no_download(ModelFamily::Speech, true),
        Err("Another speech model is already downloading.".into())
    );
    assert_eq!(
        require_no_download(ModelFamily::Translation, true),
        Err("Another translation model is already downloading.".into())
    );
    assert_eq!(
        require_no_download(ModelFamily::Visual, true),
        Err("A visual recognition model is already downloading.".into())
    );
    assert_eq!(
        require_stopped(ModelFamily::Visual, true),
        Err("Stop captions and visual translation before changing visual models.".into())
    );
    assert!(should_publish_progress(100, 5, 10));
    assert!(should_publish_progress(3, 10, 10));
    assert!(!should_publish_progress(99, 5, 10));
    assert_eq!(progress_message("encoder"), "Downloading encoder…");
    assert_eq!(verifying_message("Parakeet"), "Downloading and verifying Parakeet…");
}
