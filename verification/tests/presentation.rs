use prollyglot_runtime::contracts::{
    ApplicationErrorCode, CaptionOutputMode, CaptionPresentationEntry, CaptionPresentationFrame,
    CaptionPresentationPhase, RecoveryAction, SessionId,
};
use prollyglot_runtime::presentation::{
    accepts_caption_frame, cleared_frame, clearing_revision, invalid_frame,
    overlay_delivery_failed, overlay_unavailable, require_main_webview, validate_caption_frame,
};

fn frame() -> CaptionPresentationFrame {
    CaptionPresentationFrame {
        session_id: SessionId(3),
        runtime_revision: 10,
        presentation_revision: 2,
        phase: CaptionPresentationPhase::Holding,
        readable_at_ms: 1_750_000_000_000,
        mode: CaptionOutputMode::Both,
        target_language: Some("en".into()),
        entries: vec![CaptionPresentationEntry {
            key: "ja:1".into(),
            source_language: "ja".into(),
            original: "ニュース".into(),
            translation: Some("News".into()),
            translation_pending: false,
            is_final: true,
        }],
    }
}

#[test]
fn caption_frames_require_consistent_visible_content() {
    assert!(validate_caption_frame(&frame()).is_ok());
    let mut invalid = frame();
    invalid.phase = CaptionPresentationPhase::Cleared;
    assert!(validate_caption_frame(&invalid).is_err());
    invalid.entries.clear();
    invalid.readable_at_ms = 0;
    assert!(validate_caption_frame(&invalid).is_ok());
}

#[test]
fn caption_phase_matches_provisional_state() {
    let mut invalid = frame();
    invalid.phase = CaptionPresentationPhase::Active;
    assert!(validate_caption_frame(&invalid).is_err());

    invalid.entries[0].is_final = false;
    assert!(validate_caption_frame(&invalid).is_ok());
    invalid.phase = CaptionPresentationPhase::Holding;
    assert!(validate_caption_frame(&invalid).is_err());
}

#[test]
fn caption_frame_errors_name_the_first_broken_rule() {
    let mut invalid = frame();
    invalid.session_id = SessionId(0);
    assert_eq!(
        validate_caption_frame(&invalid),
        Err("Caption presentation requires an active session identifier.".to_string())
    );

    let mut invalid = frame();
    invalid.presentation_revision = 9_007_199_254_740_992;
    assert_eq!(
        validate_caption_frame(&invalid),
        Err("Caption presentation revisions and timestamps must be safe integers.".to_string())
    );

    let mut invalid = frame();
    for _ in 0..4 {
        let entry = invalid.entries[0].clone();
        invalid.entries.push(entry);
    }
    assert_eq!(
        validate_caption_frame(&invalid),
        Err("Caption presentation contains 5 rows; the maximum is 4.".to_string())
    );

    let mut invalid = frame();
    invalid.target_language = Some("  ".into());
    assert_eq!(
        validate_caption_frame(&invalid),
        Err("Translated caption output requires a target language.".to_string())
    );
    invalid.mode = CaptionOutputMode::Original;
    assert!(validate_caption_frame(&invalid).is_ok());

    let mut invalid = frame();
    invalid.target_language = Some("x".repeat(65));
    assert_eq!(
        validate_caption_frame(&invalid),
        Err("The caption target language identifier is too long.".to_string())
    );
}

#[test]
fn caption_entry_errors_report_the_row_rule() {
    let mut invalid = frame();
    invalid.entries[0].key = String::new();
    assert_eq!(
        validate_caption_frame(&invalid),
        Err("A caption row has an invalid identity key.".to_string())
    );

    let mut invalid = frame();
    invalid.entries[0].source_language = " ".into();
    assert_eq!(
        validate_caption_frame(&invalid),
        Err("A caption source language identifier is too long.".to_string())
    );

    let mut invalid = frame();
    invalid.entries[0].original = "\t".into();
    assert_eq!(
        validate_caption_frame(&invalid),
        Err("A caption row has invalid original text.".to_string())
    );

    let mut invalid = frame();
    invalid.entries[0].translation_pending = true;
    assert_eq!(
        validate_caption_frame(&invalid),
        Err("A caption row has invalid translated text.".to_string())
    );
    invalid.entries[0].translation = None;
    assert!(validate_caption_frame(&invalid).is_ok());
}

#[test]
fn clearing_advances_the_session_revision_only() {
    let cleared = cleared_frame(SessionId(4), 7, 0);
    assert_eq!(cleared.phase, CaptionPresentationPhase::Cleared);
    assert!(cleared.entries.is_empty());
    assert_eq!(cleared.readable_at_ms, 0);

    let current = Some(frame());
    assert_eq!(clearing_revision(&current, SessionId(3)), 3);
    assert_eq!(clearing_revision(&current, SessionId(4)), 0);
    assert_eq!(clearing_revision(&None, SessionId(3)), 0);
    let mut saturated = frame();
    saturated.presentation_revision = u64::MAX;
    assert_eq!(clearing_revision(&Some(saturated), SessionId(3)), u64::MAX);
}

#[test]
fn invalid_frames_ask_for_settings() {
    let error = invalid_frame("bad frame", SessionId(3));
    assert_eq!(error.code, ApplicationErrorCode::ConfigurationInvalid);
    assert_eq!(error.suggested_action, RecoveryAction::OpenSettings);
    assert_eq!(error.session_id, Some(SessionId(3)));
    assert_eq!(error.message, "bad frame");
}

#[test]
fn shown_caption_frames_only_move_forward() {
    let shown = Some(cleared_frame(SessionId(3), 10, 4));
    assert!(accepts_caption_frame(&None, &cleared_frame(SessionId(3), 10, 0)));
    assert!(accepts_caption_frame(&shown, &cleared_frame(SessionId(3), 10, 5)));
    assert!(accepts_caption_frame(&shown, &cleared_frame(SessionId(3), 11, 5)));
    assert!(!accepts_caption_frame(&shown, &cleared_frame(SessionId(3), 10, 4)));
    assert!(!accepts_caption_frame(&shown, &cleared_frame(SessionId(3), 9, 5)));
    assert!(!accepts_caption_frame(&shown, &cleared_frame(SessionId(4), 10, 5)));

    let error = overlay_unavailable(SessionId(3));
    assert_eq!(error.code, ApplicationErrorCode::WindowOperationFailed);
    assert_eq!(error.message, "Caption presentation overlay is unavailable.");
    assert_eq!(error.suggested_action, RecoveryAction::RestartApplication);
    let error = overlay_delivery_failed("window closed", SessionId(3));
    assert_eq!(error.message, "window closed");
    assert_eq!(error.suggested_action, RecoveryAction::Retry);
    assert_eq!(error.session_id, Some(SessionId(3)));
}

#[test]
fn only_the_main_interface_publishes_caption_frames() {
    assert!(require_main_webview("main", SessionId(3)).is_ok());
    let error = require_main_webview("overlay", SessionId(3)).unwrap_err();
    assert_eq!(error.code, ApplicationErrorCode::Internal);
    assert_eq!(
        error.message,
        "Only the main Prollyglot interface may publish caption presentation frames."
    );
    assert_eq!(error.suggested_action, RecoveryAction::ReportIssue);
    assert_eq!(error.session_id, Some(SessionId(3)));
}
