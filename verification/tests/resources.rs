use prollyglot_runtime::contracts::{
    ApplicationErrorCode, InferenceResourceKind, InferenceResourcePhase,
    ReportInferenceResourceCommand, SessionId, SessionMode, SessionSource, SessionSourceKind,
    StartSessionRequest,
};
use prollyglot_runtime::resources::{
    decide_translation_report, normalized_identifier, TranslationOwner, TranslationReport,
};
use prollyglot_runtime::supervisor::SessionSupervisor;

fn loaded(session_id: SessionId, mode: SessionMode, owner: &str, model: &str) -> ReportInferenceResourceCommand {
    ReportInferenceResourceCommand {
        session_id,
        mode,
        owner_id: owner.into(),
        kind: InferenceResourceKind::Translation,
        phase: InferenceResourcePhase::Loaded,
        model_id: Some(model.into()),
        cold_start_millis: 320,
    }
}

#[test]
fn frontend_translation_report_requires_the_matching_active_session() {
    let mut supervisor = SessionSupervisor::new();
    let started = supervisor
        .start(StartSessionRequest {
            mode: SessionMode::AudioCaptions,
            source: SessionSource::new("device:default", SessionSourceKind::SystemOutput, "Speakers"),
        })
        .expect("start session");
    let snapshot = supervisor.snapshot();
    let command = loaded(started.session_id, SessionMode::AudioCaptions, "captions:1", "opus-ja-en");
    let report = decide_translation_report(&snapshot, &None, &command).expect("track translation");
    assert_eq!(
        report,
        TranslationReport::Acquire(TranslationOwner {
            session_id: started.session_id,
            owner_id: "captions:1".into(),
            model_id: "opus-ja-en".into(),
        })
    );
    let stale = ReportInferenceResourceCommand {
        session_id: SessionId(started.session_id.0 + 1),
        ..command.clone()
    };
    let error = decide_translation_report(&snapshot, &None, &stale).unwrap_err();
    assert_eq!(error.code, ApplicationErrorCode::SessionConflict);

    let owner = TranslationOwner {
        session_id: started.session_id,
        owner_id: "captions:1".into(),
        model_id: "opus-ja-en".into(),
    };
    assert_eq!(
        decide_translation_report(&snapshot, &Some(owner.clone()), &command),
        Ok(TranslationReport::Unchanged)
    );
    let other = loaded(started.session_id, SessionMode::AudioCaptions, "captions:2", "opus-ja-en");
    assert_eq!(
        decide_translation_report(&snapshot, &Some(owner), &other).unwrap_err().message,
        "A different translation runtime still owns the active inference slot."
    );
    let mut wrong_kind = command.clone();
    wrong_kind.kind = InferenceResourceKind::VisualOcr;
    assert!(decide_translation_report(&snapshot, &None, &wrong_kind).is_err());
}

#[test]
fn stale_unload_cannot_release_a_new_translation_owner() {
    let mut supervisor = SessionSupervisor::new();
    let started = supervisor
        .start(StartSessionRequest {
            mode: SessionMode::VisualTranslation,
            source: SessionSource::new("display:1", SessionSourceKind::Display, "Display 1"),
        })
        .expect("start session");
    let snapshot = supervisor.snapshot();
    let load = ReportInferenceResourceCommand {
        session_id: started.session_id,
        mode: SessionMode::VisualTranslation,
        owner_id: "visual:2".into(),
        kind: InferenceResourceKind::Translation,
        phase: InferenceResourcePhase::Loaded,
        model_id: Some("m2m100".into()),
        cold_start_millis: 500,
    };
    let owner = match decide_translation_report(&snapshot, &None, &load).expect("track translation") {
        TranslationReport::Acquire(owner) => owner,
        other => panic!("expected the slot to be acquired, got {other:?}"),
    };
    let unload = |owner_id: &str| ReportInferenceResourceCommand {
        session_id: started.session_id,
        mode: SessionMode::VisualTranslation,
        owner_id: owner_id.into(),
        kind: InferenceResourceKind::Translation,
        phase: InferenceResourcePhase::Unloaded,
        model_id: None,
        cold_start_millis: 0,
    };
    assert_eq!(
        decide_translation_report(&snapshot, &Some(owner.clone()), &unload("visual:1")),
        Ok(TranslationReport::Keep)
    );
    assert_eq!(
        decide_translation_report(&snapshot, &Some(owner), &unload(" visual:2 ")),
        Ok(TranslationReport::Release)
    );
}

#[test]
fn identifiers_are_trimmed_and_bounded() {
    assert_eq!(normalized_identifier("  opus \t", "translation model"), Ok("opus".to_string()));
    let error = normalized_identifier("   ", "translation owner").unwrap_err();
    assert_eq!(error.code, ApplicationErrorCode::ConfigurationInvalid);
    assert_eq!(error.message, "The translation owner identifier is invalid.");
    assert!(normalized_identifier(&"x".repeat(240), "model").is_ok());
    assert!(normalized_identifier(&"x".repeat(241), "model").is_err());
}
