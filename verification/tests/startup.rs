use prollyglot_runtime::contracts::{
    ApplicationErrorCode, ErrorRecoverability, PixelRect, RecoveryAction, SessionId,
    SessionLifecycle, SessionSourceKind, VisualCaptureSelection,
};
use prollyglot_runtime::startup::{
    loading_message, prefixed_message, start_completion, step_error, stop_needs_cleanup,
    stop_outcome, validate_language_pair, visual_session_source, watching_message,
    SessionStep, StartCompletion,
};

#[test]
fn each_failed_step_carries_its_recovery_advice() {
    let error = step_error(SessionStep::LoadSpeechModel, "bad model", Some(SessionId(3)));
    assert_eq!(error.code, ApplicationErrorCode::ModelFailed);
    assert_eq!(error.recoverability, ErrorRecoverability::UserActionRequired);
    assert_eq!(error.suggested_action, RecoveryAction::InstallModel);
    assert_eq!(error.session_id, Some(SessionId(3)));
    assert_eq!(error.message, "bad model");

    let error = step_error(SessionStep::ResolveAudioSource, "gone", None);
    assert_eq!(error.code, ApplicationErrorCode::CaptureUnavailable);
    assert_eq!(error.suggested_action, RecoveryAction::ChooseAnotherSource);
    assert_eq!(error.session_id, None);

    let error = step_error(SessionStep::LocateModels, "no root", Some(SessionId(1)));
    assert_eq!(error.code, ApplicationErrorCode::ModelUnavailable);
    assert_eq!(error.suggested_action, RecoveryAction::OpenSettings);

    let error = step_error(SessionStep::LoadVisualModel, "ocr", Some(SessionId(1)));
    assert_eq!(error.recoverability, ErrorRecoverability::Retryable);
    assert_eq!(error.suggested_action, RecoveryAction::InstallModel);

    let error = step_error(
        SessionStep::JoinModelLoader,
        &prefixed_message("Could not join the model-loading worker: ", "task cancelled"),
        Some(SessionId(2)),
    );
    assert_eq!(error.code, ApplicationErrorCode::WorkerPanicked);
    assert_eq!(error.message, "Could not join the model-loading worker: task cancelled");

    let error = step_error(SessionStep::SpawnTranscription, "no threads", Some(SessionId(2)));
    assert_eq!(error.code, ApplicationErrorCode::WorkerExited);
    let error = step_error(SessionStep::ChooseLanguages, "same", None);
    assert_eq!(error.code, ApplicationErrorCode::ConfigurationInvalid);
    assert_eq!(error.suggested_action, RecoveryAction::OpenSettings);
    let error = step_error(SessionStep::OperateWindow, "hidden", Some(SessionId(2)));
    assert_eq!(error.code, ApplicationErrorCode::WindowOperationFailed);
    assert_eq!(error.suggested_action, RecoveryAction::StopAndRetry);
}

#[test]
fn a_start_completes_by_the_lifecycle_it_finds() {
    assert_eq!(start_completion(SessionLifecycle::Starting), StartCompletion::MarkRunning);
    assert_eq!(start_completion(SessionLifecycle::Waiting), StartCompletion::KeepWaiting);
    assert_eq!(start_completion(SessionLifecycle::Stopping), StartCompletion::Cancelled);
    assert_eq!(start_completion(SessionLifecycle::Running), StartCompletion::Cancelled);
    assert!(stop_needs_cleanup(false, false));
    assert!(stop_needs_cleanup(true, true));
    assert!(!stop_needs_cleanup(true, false));
}

#[test]
fn stopping_reports_the_first_failure() {
    assert_eq!(
        stop_outcome(SessionId(4), None, "Capture event worker", None, "Transcription worker", None),
        Ok(())
    );
    let error = stop_outcome(
        SessionId(4),
        None,
        "Capture event worker",
        Some("boom".into()),
        "Transcription worker",
        Some("later".into()),
    )
    .unwrap_err();
    assert_eq!(error.message, "Capture event worker panicked: boom");
    assert_eq!(error.code, ApplicationErrorCode::CaptureFailed);
    assert_eq!(error.suggested_action, RecoveryAction::StopAndRetry);
    assert_eq!(error.session_id, Some(SessionId(4)));
    let error = stop_outcome(
        SessionId(4),
        Some("stream stuck".into()),
        "visual capture worker",
        Some("boom".into()),
        "visual OCR worker",
        None,
    )
    .unwrap_err();
    assert_eq!(error.message, "stream stuck");
    let error = stop_outcome(
        SessionId(4),
        None,
        "visual capture worker",
        None,
        "visual OCR worker",
        Some("oops".into()),
    )
    .unwrap_err();
    assert_eq!(error.message, "visual OCR worker panicked: oops");
}

#[test]
fn visual_selections_name_their_session_source() {
    let source = visual_session_source(&VisualCaptureSelection::Region {
        display_id: "display:1".into(),
        region: PixelRect { x: 10, y: 20, width: 300, height: 40 },
    });
    assert_eq!(source.id, "display:1:10:20:300:40");
    assert_eq!(source.kind, SessionSourceKind::Region);
    assert_eq!(source.label, "Selected display region");
    let source = visual_session_source(&VisualCaptureSelection::ApplicationWindow {
        source_id: "window:7".into(),
    });
    assert_eq!(source.id, "window:7");
    assert_eq!(source.kind, SessionSourceKind::ApplicationWindow);
    assert_eq!(source.label, "Selected application window");
    let source =
        visual_session_source(&VisualCaptureSelection::Display { source_id: "display:2".into() });
    assert_eq!(source.kind, SessionSourceKind::Display);
    assert_eq!(source.label, "Selected display");
}

#[test]
fn visual_language_pairs_must_be_supported_and_different() {
    let languages: Vec<String> = vec!["ja".into(), "en".into(), "zh".into()];
    assert_eq!(validate_language_pair("ja", "en", &languages), Ok(()));
    assert_eq!(
        validate_language_pair("fr", "en", &languages),
        Err("The visual recognition model does not support that source language.".into())
    );
    assert_eq!(
        validate_language_pair("ja", "fr", &languages),
        Err("The selected visual translation target is unsupported.".into())
    );
    assert_eq!(
        validate_language_pair("ja", "ja", &languages),
        Err("Choose a different target language for visual translation.".into())
    );
}

#[test]
fn progress_messages_name_the_model_and_languages() {
    assert_eq!(loading_message("nemotron"), "Loading nemotron…");
    assert_eq!(
        watching_message("ja", "en"),
        "Watching the live source, recognizing ja text, and translating to en."
    );
}
