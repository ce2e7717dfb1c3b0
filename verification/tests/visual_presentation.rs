use prollyglot_runtime::contracts::{
    RuntimeSnapshot, SessionId, SessionLifecycle, SessionMode,
};
use prollyglot_runtime::visual_presentation::{
    admits_presentation, cleared_visual_presentation, overlay_echoes, replaces,
    validate_visual_presentation,
    VisualPresentationOutline, VisualRegionOutline,
};

fn frame(translation: Option<&str>, translation_pending: bool) -> VisualPresentationOutline {
    VisualPresentationOutline {
        session_id: SessionId(4),
        presentation_revision: 2,
        source_width: 1920,
        source_height: 1080,
        source_language: "ja".into(),
        target_language: "en".into(),
        regions: vec![VisualRegionOutline {
            track_id: 1,
            text_revision: 1,
            original: "日本語".into(),
            translation: translation.map(String::from),
            translation_pending,
            bounds_valid: true,
        }],
    }
}

#[test]
fn visual_presentation_validation_allows_retained_pending_text() {
    assert!(validate_visual_presentation(&frame(None, true)).is_ok());
}

#[test]
fn visual_presentation_validation_rejects_inconsistent_translation_state() {
    assert!(validate_visual_presentation(&frame(Some("Japanese"), true)).is_err());
}

#[test]
fn visual_presentation_errors_name_the_broken_rule() {
    let mut invalid = frame(None, true);
    invalid.session_id = SessionId(0);
    assert_eq!(
        validate_visual_presentation(&invalid),
        Err("Visual presentation requires an active session identifier.".to_string())
    );
    let mut invalid = frame(None, true);
    invalid.source_height = 0;
    assert_eq!(
        validate_visual_presentation(&invalid),
        Err("Visual presentation source dimensions must be non-zero.".to_string())
    );
    let mut invalid = frame(None, true);
    invalid.target_language = "x".repeat(17);
    assert_eq!(
        validate_visual_presentation(&invalid),
        Err("Visual presentation language identifiers are invalid.".to_string())
    );
    let mut invalid = frame(None, true);
    invalid.regions[0].bounds_valid = false;
    assert_eq!(
        validate_visual_presentation(&invalid),
        Err("Visual presentation contains an invalid region.".to_string())
    );
    let mut invalid = frame(None, true);
    let region = invalid.regions[0].clone();
    invalid.regions = vec![region; 49];
    assert_eq!(
        validate_visual_presentation(&invalid),
        Err("Visual presentation contains too many regions.".to_string())
    );
    let mut valid = frame(Some("Japanese"), false);
    valid.regions[0].original = "字".repeat(2000);
    assert!(validate_visual_presentation(&valid).is_ok());
    valid.regions[0].original.push('字');
    assert!(validate_visual_presentation(&valid).is_err());
}

#[test]
fn only_the_current_live_session_may_present() {
    let snapshot = RuntimeSnapshot {
        revision: 7,
        session_id: Some(SessionId(4)),
        mode: Some(SessionMode::VisualTranslation),
        lifecycle: SessionLifecycle::Running,
        ..RuntimeSnapshot::default()
    };
    assert!(admits_presentation(&snapshot, SessionMode::VisualTranslation, SessionId(4), 7));
    assert!(!admits_presentation(&snapshot, SessionMode::VisualTranslation, SessionId(4), 8));
    assert!(!admits_presentation(&snapshot, SessionMode::AudioCaptions, SessionId(4), 7));
    assert!(!admits_presentation(&snapshot, SessionMode::VisualTranslation, SessionId(3), 7));
    let stopping = RuntimeSnapshot { lifecycle: SessionLifecycle::Stopping, ..snapshot };
    assert!(!admits_presentation(&stopping, SessionMode::VisualTranslation, SessionId(4), 7));

    assert!(replaces(SessionId(4), 7, 2, SessionId(4), 7, 3));
    assert!(!replaces(SessionId(4), 7, 2, SessionId(4), 7, 2));
    assert!(!replaces(SessionId(4), 7, 2, SessionId(4), 6, 3));
    assert!(!replaces(SessionId(4), 7, 2, SessionId(5), 8, 3));
}

#[test]
fn overlay_echoes_keep_recognisable_translations_of_the_first_regions() {
    let translations = vec![
        Some("Good morning!".to_string()),
        None,
        Some("OK".to_string()),
        Some("News update".to_string()),
    ];
    assert_eq!(overlay_echoes(&translations), vec!["goodmorning", "newsupdate"]);
    let many: Vec<Option<String>> = (0..60).map(|n| Some(format!("caption {n}"))).collect();
    let echoes = overlay_echoes(&many);
    assert_eq!(echoes.len(), 48);
    assert_eq!(echoes[47], "caption47");
}

#[test]
fn clearing_the_overlay_advances_the_session_and_keeps_the_source() {
    let shown = frame(Some("Japanese"), false);
    let cleared = cleared_visual_presentation(&shown, SessionId(4));
    assert_eq!(cleared.session_id, SessionId(4));
    assert_eq!(cleared.presentation_revision, 3);
    assert_eq!((cleared.source_width, cleared.source_height), (1920, 1080));
    assert_eq!(cleared.source_language, "ja");
    assert_eq!(cleared.target_language, "en");
    assert!(cleared.regions.is_empty());

    let other = cleared_visual_presentation(&shown, SessionId(5));
    assert_eq!(other.presentation_revision, 0);
    let empty = VisualPresentationOutline {
        source_width: 0,
        source_height: 0,
        presentation_revision: u64::MAX,
        ..shown
    };
    let saturated = cleared_visual_presentation(&empty, SessionId(4));
    assert_eq!(saturated.presentation_revision, u64::MAX);
    assert_eq!((saturated.source_width, saturated.source_height), (1, 1));
}
