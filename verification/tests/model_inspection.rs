use prollyglot_runtime::model_inspection::{
    inspect_speech_catalog, inspect_translation_catalog, inspect_visual_catalog, join_texts,
    product_metadata, InstallState, ManifestSummary,
};
use prollyglot_runtime::models::{ModelPhase, TranslationModelPhase, VisualModelPhase};

const DEFAULT_ID: &str = "sherpa-zipformer-en-default";
const MULTILINGUAL_ID: &str = "sherpa-nemotron-multilingual";

fn manifest(id: &str, size: u64) -> ManifestSummary {
    ManifestSummary {
        id: id.into(),
        display_name: format!("{id} display"),
        languages: vec!["en".into(), "ja".into()],
        download_size_bytes: size,
    }
}

#[test]
fn problems_are_joined_with_semicolons() {
    assert_eq!(join_texts(&vec![], "; "), "");
    assert_eq!(join_texts(&vec!["one".into()], "; "), "one");
    assert_eq!(
        join_texts(&vec!["one".into(), "two".into(), "three".into()], "; "),
        "one; two; three"
    );
}

#[test]
fn speech_models_show_their_check_and_product_names() {
    let manifests = vec![
        manifest(DEFAULT_ID, 100),
        manifest("sherpa-zipformer-fr-2023-04-14", 200),
        manifest(MULTILINGUAL_ID, 300),
        manifest("other", 400),
    ];
    let states = vec![
        InstallState::Ready,
        InstallState::Corrupt(vec!["missing encoder".into(), "bad tokens".into()]),
        InstallState::NotInstalled,
        InstallState::Unreadable("permission denied".into()),
    ];
    let catalog =
        inspect_speech_catalog("chosen".into(), &manifests, &states, DEFAULT_ID, MULTILINGUAL_ID);
    assert_eq!(catalog.selected_model_id, "chosen");
    assert_eq!(catalog.models.len(), 4);
    let ready = &catalog.models[0];
    assert_eq!(ready.phase, ModelPhase::Ready);
    assert_eq!(ready.downloaded_bytes, 100);
    assert_eq!(ready.total_bytes, 100);
    assert_eq!(ready.profile, "Fast");
    assert_eq!(ready.message, None);
    assert_eq!(ready.languages, vec!["en".to_string(), "ja".to_string()]);
    let corrupt = &catalog.models[1];
    assert_eq!(corrupt.phase, ModelPhase::Corrupt);
    assert_eq!(corrupt.downloaded_bytes, 0);
    assert_eq!(corrupt.profile, "French · Compact");
    assert_eq!(
        corrupt.message.as_deref(),
        Some("The installed model is incomplete or corrupt: missing encoder; bad tokens")
    );
    assert_eq!(catalog.models[2].phase, ModelPhase::NotInstalled);
    assert_eq!(catalog.models[2].profile, "Multilingual");
    assert_eq!(catalog.models[3].phase, ModelPhase::Failed);
    assert_eq!(catalog.models[3].profile, "Speech");
    assert_eq!(catalog.models[3].description, "Local streaming captions.");
    assert_eq!(catalog.models[3].message.as_deref(), Some("permission denied"));
}

#[test]
fn product_metadata_follows_the_first_matching_name() {
    assert_eq!(product_metadata(DEFAULT_ID, DEFAULT_ID, MULTILINGUAL_ID).0, "Fast");
    assert_eq!(
        product_metadata("sherpa-zipformer-en-gigaspeech-2023-06-21", DEFAULT_ID, MULTILINGUAL_ID).0,
        "Enhanced"
    );
    assert_eq!(
        product_metadata("sherpa-zipformer-ko-2024-06-16", DEFAULT_ID, MULTILINGUAL_ID).0,
        "Korean · Compact"
    );
}

#[test]
fn translation_and_visual_models_show_their_check() {
    let catalog = inspect_translation_catalog(
        &vec![manifest("translation-opus-mt-ja-en", 50), manifest("translation-m2m", 70)],
        &vec![InstallState::Corrupt(vec!["size".into()]), InstallState::Ready],
    );
    assert_eq!(catalog.models[0].phase, TranslationModelPhase::Corrupt);
    assert_eq!(
        catalog.models[0].message.as_deref(),
        Some("The native model is incomplete or corrupt: size")
    );
    assert_eq!(catalog.models[1].phase, TranslationModelPhase::Ready);
    assert_eq!(catalog.models[1].downloaded_bytes, 70);
    assert_eq!(catalog.models[1].storage_id, "translation-m2m");

    let visual = inspect_visual_catalog(
        &manifest("rapidocr", 90),
        &InstallState::Corrupt(vec!["det".into(), "rec".into()]),
    );
    assert_eq!(visual.models.len(), 1);
    assert_eq!(visual.models[0].phase, VisualModelPhase::Corrupt);
    assert_eq!(visual.models[0].message.as_deref(), Some("det; rec"));
    assert_eq!(visual.models[0].profile, "Visual OCR · Balanced");
}
