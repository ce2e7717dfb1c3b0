//! The decisions of starting and stopping an audio or visual session that do
//! not depend on how its workers run: the error and recovery advice of each
//! step that can fail, the source a visual selection is shown as, how a start
//! completes, and how stopping a session's resources is judged.

use vstd::prelude::*;
use vstd::string::*;

use crate::contracts::{
    error_is, ApplicationError, ApplicationErrorCode, ErrorRecoverability, PixelRect,
    RecoveryAction, SessionId, SessionLifecycle, SessionSource, SessionSourceKind,
    VisualCaptureSelection,
};
use crate::speech::str_eq;
use crate::text::{decimal, decimal_string};

verus! {

/// A step of starting or stopping a session that can fail.
#[derive(Clone, Copy, Debug, PartialEq, Eq, Structural)]
pub enum SessionStep {
    /// The chosen audio source could not be resolved.
    ResolveAudioSource,
    /// No installed speech model serves the chosen language.
    SelectSpeechModel,
    /// The directory of local models could not be found.
    LocateModels,
    /// The speech model failed to load.
    LoadSpeechModel,
    /// The visual recognition model is not installed.
    LocateVisualModel,
    /// The visual recognition model failed to load.
    LoadVisualModel,
    /// The worker that loaded a model could not be joined.
    JoinModelLoader,
    /// The capture could not start.
    StartCapture,
    /// The transcription worker failed.
    RunTranscription,
    /// The transcription worker could not be started.
    SpawnTranscription,
    /// A window could not be shown, moved or hidden.
    OperateWindow,
    /// The chosen languages cannot be used.
    ChooseLanguages,
    /// Stopping the capture or joining a worker failed.
    StopResources,
    /// A thread that watches or cleans up the session could not be started.
    SpawnSessionWorker,
    /// The capture sources could not be listed.
    ListSources,
}

/// The error code, recoverability and suggested action of a failed step.
pub open spec fn step_advice(step: SessionStep) -> (ApplicationErrorCode, ErrorRecoverability, RecoveryAction) {
    match step {
        SessionStep::ResolveAudioSource => (
            ApplicationErrorCode::CaptureUnavailable,
            ErrorRecoverability::Retryable,
            RecoveryAction::ChooseAnotherSource,
        ),
        SessionStep::SelectSpeechModel => (
            ApplicationErrorCode::ModelUnavailable,
            ErrorRecoverability::UserActionRequired,
            RecoveryAction::InstallModel,
        ),
        SessionStep::LocateModels => (
            ApplicationErrorCode::ModelUnavailable,
            ErrorRecoverability::UserActionRequired,
            RecoveryAction::OpenSettings,
        ),
        SessionStep::LoadSpeechModel => (
            ApplicationErrorCode::ModelFailed,
            ErrorRecoverability::UserActionRequired,
            RecoveryAction::InstallModel,
        ),
        SessionStep::LocateVisualModel => (
            ApplicationErrorCode::ModelUnavailable,
            ErrorRecoverability::UserActionRequired,
            RecoveryAction::InstallModel,
        ),
        SessionStep::LoadVisualModel => (
            ApplicationErrorCode::ModelFailed,
            ErrorRecoverability::Retryable,
            RecoveryAction::InstallModel,
        ),
        SessionStep::JoinModelLoader => (
            ApplicationErrorCode::WorkerPanicked,
            ErrorRecoverability::Retryable,
            RecoveryAction::StopAndRetry,
        ),
        SessionStep::StartCapture => (
            ApplicationErrorCode::CaptureFailed,
            ErrorRecoverability::Retryable,
            RecoveryAction::ChooseAnotherSource,
        ),
        SessionStep::RunTranscription => (
            ApplicationErrorCode::ModelFailed,
            ErrorRecoverability::Retryable,
            RecoveryAction::StopAndRetry,
        ),
        SessionStep::SpawnTranscription => (
            ApplicationErrorCode::WorkerExited,
            ErrorRecoverability::Retryable,
            RecoveryAction::StopAndRetry,
        ),
        SessionStep::OperateWindow => (
            ApplicationErrorCode::WindowOperationFailed,
            ErrorRecoverability::Retryable,
            RecoveryAction::StopAndRetry,
        ),
        SessionStep::ChooseLanguages => (
            ApplicationErrorCode::ConfigurationInvalid,
            ErrorRecoverability::UserActionRequired,
            RecoveryAction::OpenSettings,
        ),
        SessionStep::StopResources => (
            ApplicationErrorCode::CaptureFailed,
            ErrorRecoverability::Retryable,
            RecoveryAction::StopAndRetry,
        ),
        SessionStep::SpawnSessionWorker => (
            ApplicationErrorCode::WorkerExited,
            ErrorRecoverability::RestartRequired,
            RecoveryAction::RestartApplication,
        ),
        SessionStep::ListSources => (
            ApplicationErrorCode::CaptureUnavailable,
            ErrorRecoverability::Retryable,
            RecoveryAction::Retry,
        ),
    }
}

/// The error that a failed step gives, with its message and the session it
/// belongs to, if one was started.
pub fn step_error(step: SessionStep, message: &str, session_id: Option<SessionId>) -> (error: ApplicationError)
    ensures
        error_is(
            error,
            step_advice(step).0,
            message@,
            step_advice(step).1,
            step_advice(step).2,
            session_id,
        ),
{
    let (code, recoverability, action) = match step {
        SessionStep::ResolveAudioSource => (
            ApplicationErrorCode::CaptureUnavailable,
            ErrorRecoverability::Retryable,
            RecoveryAction::ChooseAnotherSource,
        ),
        SessionStep::SelectSpeechModel => (
            ApplicationErrorCode::ModelUnavailable,
            ErrorRecoverability::UserActionRequired,
            RecoveryAction::InstallModel,
        ),
        SessionStep::LocateModels => (
            ApplicationErrorCode::ModelUnavailable,
            ErrorRecoverability::UserActionRequired,
            RecoveryAction::OpenSettings,
        ),
        SessionStep::LoadSpeechModel => (
            ApplicationErrorCode::ModelFailed,
            ErrorRecoverability::UserActionRequired,
            RecoveryAction::InstallModel,
        ),
        SessionStep::LocateVisualModel => (
            ApplicationErrorCode::ModelUnavailable,
            ErrorRecoverability::UserActionRequired,
            RecoveryAction::InstallModel,
        ),
        SessionStep::LoadVisualModel => (
            ApplicationErrorCode::ModelFailed,
            ErrorRecoverability::Retryable,
            RecoveryAction::InstallModel,
        ),
        SessionStep::JoinModelLoader => (
            ApplicationErrorCode::WorkerPanicked,
            ErrorRecoverability::Retryable,
            RecoveryAction::StopAndRetry,
        ),
        SessionStep::StartCapture => (
            ApplicationErrorCode::CaptureFailed,
            ErrorRecoverability::Retryable,
            RecoveryAction::ChooseAnotherSource,
        ),
        SessionStep::RunTranscription => (
            ApplicationErrorCode::ModelFailed,
            ErrorRecoverability::Retryable,
            RecoveryAction::StopAndRetry,
        ),
        SessionStep::SpawnTranscription => (
            ApplicationErrorCode::WorkerExited,
            ErrorRecoverability::Retryable,
            RecoveryAction::StopAndRetry,
        ),
        SessionStep::OperateWindow => (
            ApplicationErrorCode::WindowOperationFailed,
            ErrorRecoverability::Retryable,
            RecoveryAction::StopAndRetry,
        ),
        SessionStep::ChooseLanguages => (
            ApplicationErrorCode::ConfigurationInvalid,
            ErrorRecoverability::UserActionRequired,
            RecoveryAction::OpenSettings,
        ),
        SessionStep::StopResources => (
            ApplicationErrorCode::CaptureFailed,
            ErrorRecoverability::Retryable,
            RecoveryAction::StopAndRetry,
        ),
        SessionStep::SpawnSessionWorker => (
            ApplicationErrorCode::WorkerExited,
            ErrorRecoverability::RestartRequired,
            RecoveryAction::RestartApplication,
        ),
        SessionStep::ListSources => (
            ApplicationErrorCode::CaptureUnavailable,
            ErrorRecoverability::Retryable,
            RecoveryAction::Retry,
        ),
    };
    let error = ApplicationError::new(code, message, recoverability, action);
    match session_id {
        Some(id) => error.for_session(id),
        None => error,
    }
}

/// `prefix` followed by `detail`.
pub fn prefixed_message(prefix: &str, detail: &str) -> (message: String)
    ensures
        message@ == prefix@ + detail@,
{
    let mut message = String::from_str(prefix);
    message.append(detail);
    message
}

/// How a started session goes on once its workers are in place, by the
/// lifecycle the supervisor shows then.
#[derive(Clone, Copy, Debug, PartialEq, Eq, Structural)]
pub enum StartCompletion {
    /// Still starting: mark it running.
    MarkRunning,
    /// Already waiting for its source: leave it waiting.
    KeepWaiting,
    /// Stopped, stopping or failed meanwhile: the start was cancelled.
    Cancelled,
}

pub open spec fn start_completion_spec(lifecycle: SessionLifecycle) -> StartCompletion {
    match lifecycle {
        SessionLifecycle::Starting => StartCompletion::MarkRunning,
        SessionLifecycle::Waiting => StartCompletion::KeepWaiting,
        _ => StartCompletion::Cancelled,
    }
}

pub fn start_completion(lifecycle: SessionLifecycle) -> (completion: StartCompletion)
    ensures
        completion == start_completion_spec(lifecycle),
{
    match lifecycle {
        SessionLifecycle::Starting => StartCompletion::MarkRunning,
        SessionLifecycle::Waiting => StartCompletion::KeepWaiting,
        _ => StartCompletion::Cancelled,
    }
}

/// Whether a stop request must schedule the cleanup of the session: unless
/// the session was already stopping and no resources were left to stop,
/// another cleanup is already under way.
pub fn stop_needs_cleanup(already_stopping: bool, has_resources: bool) -> (needed: bool)
    ensures
        needed == (!already_stopping || has_resources),
{
    !already_stopping || has_resources
}

/// The first failure reported while stopping a session's resources: the
/// capture's own, then each worker's panic under its label.
pub open spec fn first_stop_failure(
    capture_error: Option<Seq<char>>,
    first_label: Seq<char>,
    first_panic: Option<Seq<char>>,
    second_label: Seq<char>,
    second_panic: Option<Seq<char>>,
) -> Option<Seq<char>> {
    match capture_error {
        Some(message) => Some(message),
        None => match first_panic {
            Some(panic) => Some(first_label + " panicked: "@ + panic),
            None => match second_panic {
                Some(panic) => Some(second_label + " panicked: "@ + panic),
                None => None,
            },
        },
    }
}

pub open spec fn text_option(text: Option<String>) -> Option<Seq<char>> {
    match text {
        Some(text) => Some(text@),
        None => None,
    }
}

fn panicked(label: &str, panic: &str) -> (message: String)
    ensures
        message@ == label@ + " panicked: "@ + panic@,
{
    let mut message = String::from_str(label);
    message.append(" panicked: ");
    message.append(panic);
    message
}

/// Judges stopping a session's resources: the first failure, if any,
/// becomes a capture failure of that session.
pub fn stop_outcome(
    session_id: SessionId,
    capture_error: Option<String>,
    first_label: &str,
    first_panic: Option<String>,
    second_label: &str,
    second_panic: Option<String>,
) -> (result: Result<(), ApplicationError>)
    ensures
        match first_stop_failure(
            text_option(capture_error),
            first_label@,
            text_option(first_panic),
            second_label@,
            text_option(second_panic),
        ) {
            None => result is Ok,
            Some(message) => result matches Err(error) && error_is(
                error,
                ApplicationErrorCode::CaptureFailed,
                message,
                ErrorRecoverability::Retryable,
                RecoveryAction::StopAndRetry,
                Some(session_id),
            ),
        },
{
    let message = match capture_error {
        Some(message) => message,
        None => match first_panic {
            Some(panic) => panicked(first_label, panic.as_str()),
            None => match second_panic {
                Some(panic) => panicked(second_label, panic.as_str()),
                None => return Ok(()),
            },
        },
    };
    Err(step_error(SessionStep::StopResources, message.as_str(), Some(session_id)))
}

/// The text that names a selected display region: the display and the
/// region's position and size.
pub open spec fn region_source_id(display_id: Seq<char>, region: PixelRect) -> Seq<char> {
    display_id + ":"@ + decimal(region.x as nat) + ":"@ + decimal(region.y as nat) + ":"@
        + decimal(region.width as nat) + ":"@ + decimal(region.height as nat)
}

/// The session source a visual selection is shown as before the capture
/// resolves it.
pub open spec fn visual_session_source_spec(selection: VisualCaptureSelection) -> (Seq<char>, SessionSourceKind, Seq<char>) {
    match selection {
        VisualCaptureSelection::ApplicationWindow { source_id } => (
            source_id@,
            SessionSourceKind::ApplicationWindow,
            "Selected application window"@,
        ),
        VisualCaptureSelection::Display { source_id } => (
            source_id@,
            SessionSourceKind::Display,
            "Selected display"@,
        ),
        VisualCaptureSelection::Region { display_id, region } => (
            region_source_id(display_id@, region),
            SessionSourceKind::Region,
            "Selected display region"@,
        ),
    }
}

pub fn visual_session_source(selection: &VisualCaptureSelection) -> (source: SessionSource)
    ensures
        (source.id@, source.kind, source.label@) == visual_session_source_spec(*selection),
{
    match selection {
        VisualCaptureSelection::ApplicationWindow { source_id } => SessionSource::new(
            source_id.as_str(),
            SessionSourceKind::ApplicationWindow,
            "Selected application window",
        ),
        VisualCaptureSelection::Display { source_id } => SessionSource::new(
            source_id.as_str(),
            SessionSourceKind::Display,
            "Selected display",
        ),
        VisualCaptureSelection::Region { display_id, region } => {
            let mut id = display_id.clone();
            id.append(":");
            id.append(decimal_string(region.x as u64).as_str());
            id.append(":");
            id.append(decimal_string(region.y as u64).as_str());
            id.append(":");
            id.append(decimal_string(region.width as u64).as_str());
            id.append(":");
            id.append(decimal_string(region.height as u64).as_str());
            SessionSource::new(id.as_str(), SessionSourceKind::Region, "Selected display region")
        },
    }
}

/// Whether `language` is one of `languages`.
pub open spec fn supports_language(languages: Seq<String>, language: Seq<char>) -> bool {
    exists|i: int| 0 <= i < languages.len() && (#[trigger] languages[i])@ == language
}

fn lists(languages: &Vec<String>, language: &str) -> (listed: bool)
    ensures
        listed == supports_language(languages@, language@),
{
    let mut index: usize = 0;
    while index < languages.len()
        invariant
            index <= languages@.len(),
            forall|j: int| 0 <= j < index ==> (#[trigger] languages@[j])@ != language@,
        decreases languages@.len() - index,
    {
        if str_eq(languages[index].as_str(), language) {
            return true;
        }
        index = index + 1;
    }
    false
}

/// Checks the languages of a visual translation against those the visual
/// recognition model reads: both must be among them, and they must differ.
pub fn validate_language_pair(source: &str, target: &str, languages: &Vec<String>) -> (result: Result<(), String>)
    ensures
        !supports_language(languages@, source@) ==> (result matches Err(message) && message@
            == "The visual recognition model does not support that source language."@),
        supports_language(languages@, source@) && !supports_language(languages@, target@) ==> (
        result matches Err(message) && message@
            == "The selected visual translation target is unsupported."@),
        supports_language(languages@, source@) && supports_language(languages@, target@) && source@
            == target@ ==> (result matches Err(message) && message@
            == "Choose a different target language for visual translation."@),
        result is Ok <==> (supports_language(languages@, source@) && supports_language(languages@, target@)
            && source@ != target@),
{
    if !lists(languages, source) {
        return Err(String::from_str("The visual recognition model does not support that source language."));
    }
    if !lists(languages, target) {
        return Err(String::from_str("The selected visual translation target is unsupported."));
    }
    if str_eq(source, target) {
        return Err(String::from_str("Choose a different target language for visual translation."));
    }
    Ok(())
}

/// The health message of a running visual translation.
pub fn watching_message(source_language: &str, target_language: &str) -> (message: String)
    ensures
        message@ == "Watching the live source, recognizing "@ + source_language@
            + " text, and translating to "@ + target_language@ + "."@,
{
    let mut message = String::from_str("Watching the live source, recognizing ");
    message.append(source_language);
    message.append(" text, and translating to ");
    message.append(target_language);
    message.append(".");
    message
}

/// The progress message while a speech model loads.
pub fn loading_message(model_id: &str) -> (message: String)
    ensures
        message@ == "Loading "@ + model_id@ + "…"@,
{
    let mut message = String::from_str("Loading ");
    message.append(model_id);
    message.append("…");
    message
}

} // verus!
