//! The session, error and wire contracts shared by the runtime and its adapters.

use vstd::prelude::*;
use vstd::string::*;

use crate::text::{decimal, decimal_string};

verus! {

pub const APPLICATION_RUNTIME_CONTRACT_VERSION: u16 = 4;

#[derive(Clone, Copy, Debug, PartialEq, Eq, Hash, Structural)]
pub struct SessionId(pub u32);

#[derive(Clone, Copy, Debug, PartialEq, Eq, Structural)]
pub enum SessionMode {
    AudioCaptions,
    VisualTranslation,
}

#[derive(Clone, Copy, Debug, PartialEq, Eq, Structural)]
pub enum SessionLifecycle {
    Stopped,
    Starting,
    Running,
    Waiting,
    Stopping,
    Failed,
}

impl SessionLifecycle {
    /// The variant's name, as its `Debug` rendering spells it.
    pub open spec fn name_spec(self) -> Seq<char> {
        match self {
            SessionLifecycle::Stopped => "Stopped"@,
            SessionLifecycle::Starting => "Starting"@,
            SessionLifecycle::Running => "Running"@,
            SessionLifecycle::Waiting => "Waiting"@,
            SessionLifecycle::Stopping => "Stopping"@,
            SessionLifecycle::Failed => "Failed"@,
        }
    }

    pub fn name(self) -> (name: &'static str)
        ensures
            name@ == self.name_spec(),
    {
        proof {
            reveal_strlit("Stopped");
            reveal_strlit("Starting");
            reveal_strlit("Running");
            reveal_strlit("Waiting");
            reveal_strlit("Stopping");
            reveal_strlit("Failed");
        }
        match self {
            SessionLifecycle::Stopped => "Stopped",
            SessionLifecycle::Starting => "Starting",
            SessionLifecycle::Running => "Running",
            SessionLifecycle::Waiting => "Waiting",
            SessionLifecycle::Stopping => "Stopping",
            SessionLifecycle::Failed => "Failed",
        }
    }
}

#[derive(Clone, Copy, Debug, PartialEq, Eq, Structural)]
pub enum SessionSourceKind {
    SystemOutput,
    Application,
    InputDevice,
    ApplicationWindow,
    Display,
    Region,
}

/// Opaque application-level source identity. Native handles, paths, and PIDs
/// do not cross this boundary.
#[derive(Debug, PartialEq, Eq)]
pub struct SessionSource {
    pub id: String,
    pub kind: SessionSourceKind,
    pub label: String,
}

impl Clone for SessionSource {
    fn clone(&self) -> (copy: Self)
        ensures
            copy == *self,
    {
        SessionSource { id: self.id.clone(), kind: self.kind, label: self.label.clone() }
    }
}

impl SessionSource {
    pub fn new(id: &str, kind: SessionSourceKind, label: &str) -> (source: Self)
        ensures
            source.id@ == id@,
            source.kind == kind,
            source.label@ == label@,
    {
        SessionSource { id: String::from_str(id), kind, label: String::from_str(label) }
    }
}

#[derive(Clone, Copy, Debug, PartialEq, Eq, Structural)]
pub enum SessionHealthLevel {
    Healthy,
    Recovering,
    Degraded,
}

#[derive(Clone, Copy, Debug, PartialEq, Eq, Structural)]
pub enum SessionProgress {
    Idle,
    PreparingModel,
    StartingCapture,
    Live,
    WaitingForSource,
    Stopping,
    Failed,
}

#[derive(Debug, PartialEq, Eq)]
pub struct RuntimeHealth {
    pub level: SessionHealthLevel,
    pub progress: SessionProgress,
    pub message: Option<String>,
}

pub fn clone_text(value: &Option<String>) -> (copy: Option<String>)
    ensures
        copy == *value,
{
    match value {
        Some(text) => Some(text.clone()),
        None => None,
    }
}

impl Clone for RuntimeHealth {
    fn clone(&self) -> (copy: Self)
        ensures
            copy == *self,
    {
        RuntimeHealth { level: self.level, progress: self.progress, message: clone_text(&self.message) }
    }
}

impl RuntimeHealth {
    pub fn healthy(progress: SessionProgress, message: Option<String>) -> (health: Self)
        ensures
            health.level == SessionHealthLevel::Healthy,
            health.progress == progress,
            health.message == message,
    {
        RuntimeHealth { level: SessionHealthLevel::Healthy, progress, message }
    }

    pub fn recovering(message: &str) -> (health: Self)
        ensures
            health.level == SessionHealthLevel::Recovering,
            health.progress == SessionProgress::WaitingForSource,
            health.message matches Some(m) && m@ == message@,
    {
        RuntimeHealth {
            level: SessionHealthLevel::Recovering,
            progress: SessionProgress::WaitingForSource,
            message: Some(String::from_str(message)),
        }
    }

    pub fn degraded(message: &str) -> (health: Self)
        ensures
            health.level == SessionHealthLevel::Degraded,
            health.progress == SessionProgress::Failed,
            health.message matches Some(m) && m@ == message@,
    {
        RuntimeHealth {
            level: SessionHealthLevel::Degraded,
            progress: SessionProgress::Failed,
            message: Some(String::from_str(message)),
        }
    }
}

impl Default for RuntimeHealth {
    fn default() -> (health: Self)
        ensures
            health.level == SessionHealthLevel::Healthy,
            health.progress == SessionProgress::Idle,
            health.message is None,
    {
        Self::healthy(SessionProgress::Idle, None)
    }
}

#[derive(Clone, Copy, Debug, PartialEq, Eq, Structural)]
pub enum ApplicationErrorCode {
    SessionConflict,
    NoActiveSession,
    StaleSession,
    InvalidTransition,
    StartupCancelled,
    WorkerExited,
    WorkerPanicked,
    ShutdownTimedOut,
    CaptureUnavailable,
    CaptureFailed,
    ModelUnavailable,
    ModelFailed,
    TranslationFailed,
    ConfigurationInvalid,
    WindowOperationFailed,
    Internal,
}

#[derive(Clone, Copy, Debug, PartialEq, Eq, Structural)]
pub enum ErrorRecoverability {
    Automatic,
    Retryable,
    UserActionRequired,
    RestartRequired,
    NotRecoverable,
}

#[derive(Clone, Copy, Debug, PartialEq, Eq, Structural)]
pub enum RecoveryAction {
    Retry,
    StopAndRetry,
    WaitForSource,
    ChooseAnotherSource,
    InstallModel,
    OpenSettings,
    RestartApplication,
    ReportIssue,
}

/// Stable error envelope returned by application commands and runtime events.
#[derive(Debug, PartialEq, Eq)]
pub struct ApplicationError {
    pub code: ApplicationErrorCode,
    pub message: String,
    pub recoverability: ErrorRecoverability,
    pub suggested_action: RecoveryAction,
    pub session_id: Option<SessionId>,
}

impl Clone for ApplicationError {
    fn clone(&self) -> (copy: Self)
        ensures
            copy == *self,
    {
        ApplicationError {
            code: self.code,
            message: self.message.clone(),
            recoverability: self.recoverability,
            suggested_action: self.suggested_action,
            session_id: self.session_id,
        }
    }
}

/// An error with exactly these fields.
pub open spec fn error_is(
    error: ApplicationError,
    code: ApplicationErrorCode,
    message: Seq<char>,
    recoverability: ErrorRecoverability,
    action: RecoveryAction,
    session_id: Option<SessionId>,
) -> bool {
    &&& error.code == code
    &&& error.message@ == message
    &&& error.recoverability == recoverability
    &&& error.suggested_action == action
    &&& error.session_id == session_id
}

pub open spec fn conflict_error(error: ApplicationError, active: SessionId) -> bool {
    error_is(
        error,
        ApplicationErrorCode::SessionConflict,
        "Another Prollyglot session is already active."@,
        ErrorRecoverability::UserActionRequired,
        RecoveryAction::StopAndRetry,
        Some(active),
    )
}

pub open spec fn no_active_session_error(error: ApplicationError) -> bool {
    error_is(
        error,
        ApplicationErrorCode::NoActiveSession,
        "No Prollyglot session is active."@,
        ErrorRecoverability::Retryable,
        RecoveryAction::Retry,
        None,
    )
}

pub open spec fn stale_session_message(expected: SessionId, actual: SessionId) -> Seq<char> {
    "Session "@ + decimal(expected.0 as nat) + " is no longer current; session "@ + decimal(
        actual.0 as nat,
    ) + " owns the runtime."@
}

pub open spec fn stale_session_error(
    error: ApplicationError,
    expected: SessionId,
    actual: SessionId,
) -> bool {
    error_is(
        error,
        ApplicationErrorCode::StaleSession,
        stale_session_message(expected, actual),
        ErrorRecoverability::Automatic,
        RecoveryAction::Retry,
        Some(expected),
    )
}

pub open spec fn invalid_transition_message(from: SessionLifecycle, operation: Seq<char>) -> Seq<
    char,
> {
    "Cannot "@ + operation + " while the session is "@ + from.name_spec() + "."@
}

pub open spec fn invalid_transition_error(
    error: ApplicationError,
    session_id: SessionId,
    from: SessionLifecycle,
    operation: Seq<char>,
) -> bool {
    error_is(
        error,
        ApplicationErrorCode::InvalidTransition,
        invalid_transition_message(from, operation),
        ErrorRecoverability::Retryable,
        RecoveryAction::Retry,
        Some(session_id),
    )
}

pub open spec fn startup_cancelled_error(error: ApplicationError, session_id: SessionId) -> bool {
    error_is(
        error,
        ApplicationErrorCode::StartupCancelled,
        "Session startup was cancelled."@,
        ErrorRecoverability::Retryable,
        RecoveryAction::Retry,
        Some(session_id),
    )
}

pub open spec fn worker_exited_error(error: ApplicationError, session_id: SessionId, role: Seq<char>) -> bool {
    error_is(
        error,
        ApplicationErrorCode::WorkerExited,
        "The "@ + role + " worker stopped unexpectedly."@,
        ErrorRecoverability::Retryable,
        RecoveryAction::StopAndRetry,
        Some(session_id),
    )
}

pub open spec fn worker_panicked_error(error: ApplicationError, session_id: SessionId, role: Seq<char>) -> bool {
    error_is(
        error,
        ApplicationErrorCode::WorkerPanicked,
        "The "@ + role + " worker failed unexpectedly."@,
        ErrorRecoverability::Retryable,
        RecoveryAction::StopAndRetry,
        Some(session_id),
    )
}

pub open spec fn shutdown_timed_out_error(error: ApplicationError, session_id: SessionId) -> bool {
    error_is(
        error,
        ApplicationErrorCode::ShutdownTimedOut,
        "Prollyglot could not finish stopping the session in time."@,
        ErrorRecoverability::RestartRequired,
        RecoveryAction::RestartApplication,
        Some(session_id),
    )
}

impl ApplicationError {
    pub fn new(
        code: ApplicationErrorCode,
        message: &str,
        recoverability: ErrorRecoverability,
        suggested_action: RecoveryAction,
    ) -> (error: Self)
        ensures
            error_is(error, code, message@, recoverability, suggested_action, None),
    {
        ApplicationError {
            code,
            message: String::from_str(message),
            recoverability,
            suggested_action,
            session_id: None,
        }
    }

    pub fn for_session(self, session_id: SessionId) -> (error: Self)
        ensures
            error == (ApplicationError { session_id: Some(session_id), ..self }),
    {
        let mut error = self;
        error.session_id = Some(session_id);
        error
    }

    pub(crate) fn conflict(active: SessionId) -> (error: Self)
        ensures
            conflict_error(error, active),
    {
        Self::new(
            ApplicationErrorCode::SessionConflict,
            "Another Prollyglot session is already active.",
            ErrorRecoverability::UserActionRequired,
            RecoveryAction::StopAndRetry,
        ).for_session(active)
    }

    pub(crate) fn no_active_session() -> (error: Self)
        ensures
            no_active_session_error(error),
    {
        Self::new(
            ApplicationErrorCode::NoActiveSession,
            "No Prollyglot session is active.",
            ErrorRecoverability::Retryable,
            RecoveryAction::Retry,
        )
    }

    pub(crate) fn stale_session(expected: SessionId, actual: SessionId) -> (error: Self)
        ensures
            stale_session_error(error, expected, actual),
    {
        let mut message = String::from_str("Session ");
        message.append(decimal_string(expected.0 as u64).as_str());
        message.append(" is no longer current; session ");
        message.append(decimal_string(actual.0 as u64).as_str());
        message.append(" owns the runtime.");
        ApplicationError {
            code: ApplicationErrorCode::StaleSession,
            message,
            recoverability: ErrorRecoverability::Automatic,
            suggested_action: RecoveryAction::Retry,
            session_id: Some(expected),
        }
    }

    pub(crate) fn invalid_transition(
        session_id: SessionId,
        from: SessionLifecycle,
        operation: &str,
    ) -> (error: Self)
        ensures
            invalid_transition_error(error, session_id, from, operation@),
    {
        let mut message = String::from_str("Cannot ");
        message.append(operation);
        message.append(" while the session is ");
        message.append(from.name());
        message.append(".");
        ApplicationError {
            code: ApplicationErrorCode::InvalidTransition,
            message,
            recoverability: ErrorRecoverability::Retryable,
            suggested_action: RecoveryAction::Retry,
            session_id: Some(session_id),
        }
    }

    pub(crate) fn startup_cancelled(session_id: SessionId) -> (error: Self)
        ensures
            startup_cancelled_error(error, session_id),
    {
        Self::new(
            ApplicationErrorCode::StartupCancelled,
            "Session startup was cancelled.",
            ErrorRecoverability::Retryable,
            RecoveryAction::Retry,
        ).for_session(session_id)
    }

    pub(crate) fn worker_exited(session_id: SessionId, role: &str) -> (error: Self)
        ensures
            worker_exited_error(error, session_id, role@),
    {
        let mut message = String::from_str("The ");
        message.append(role);
        message.append(" worker stopped unexpectedly.");
        ApplicationError {
            code: ApplicationErrorCode::WorkerExited,
            message,
            recoverability: ErrorRecoverability::Retryable,
            suggested_action: RecoveryAction::StopAndRetry,
            session_id: Some(session_id),
        }
    }

    pub(crate) fn worker_panicked(session_id: SessionId, role: &str) -> (error: Self)
        ensures
            worker_panicked_error(error, session_id, role@),
    {
        let mut message = String::from_str("The ");
        message.append(role);
        message.append(" worker failed unexpectedly.");
        ApplicationError {
            code: ApplicationErrorCode::WorkerPanicked,
            message,
            recoverability: ErrorRecoverability::Retryable,
            suggested_action: RecoveryAction::StopAndRetry,
            session_id: Some(session_id),
        }
    }

    pub fn shutdown_timed_out(session_id: SessionId) -> (error: Self)
        ensures
            shutdown_timed_out_error(error, session_id),
    {
        Self::new(
            ApplicationErrorCode::ShutdownTimedOut,
            "Prollyglot could not finish stopping the session in time.",
            ErrorRecoverability::RestartRequired,
            RecoveryAction::RestartApplication,
        ).for_session(session_id)
    }

    /// The error's text, as its `Display` rendering gives it.
    pub fn to_string(&self) -> (text: String)
        ensures
            text@ == self.message@,
    {
        self.message.clone()
    }
}

#[derive(Debug, PartialEq, Eq)]
pub struct StartSessionRequest {
    pub mode: SessionMode,
    pub source: SessionSource,
}

impl Clone for StartSessionRequest {
    fn clone(&self) -> (copy: Self)
        ensures
            copy == *self,
    {
        StartSessionRequest { mode: self.mode, source: self.source.clone() }
    }
}

#[derive(Debug, PartialEq, Eq)]
pub struct RuntimeSnapshot {
    pub contract_version: u16,
    pub revision: u32,
    pub session_id: Option<SessionId>,
    pub mode: Option<SessionMode>,
    pub source: Option<SessionSource>,
    pub lifecycle: SessionLifecycle,
    pub health: RuntimeHealth,
    pub failure: Option<ApplicationError>,
}

impl Clone for RuntimeSnapshot {
    fn clone(&self) -> (copy: Self)
        ensures
            copy == *self,
    {
        RuntimeSnapshot {
            contract_version: self.contract_version,
            revision: self.revision,
            session_id: self.session_id,
            mode: self.mode,
            source: match &self.source {
                Some(source) => Some(source.clone()),
                None => None,
            },
            lifecycle: self.lifecycle,
            health: self.health.clone(),
            failure: match &self.failure {
                Some(failure) => Some(failure.clone()),
                None => None,
            },
        }
    }
}

/// The idle snapshot: no session, stopped and healthy.
pub open spec fn is_idle_snapshot(snapshot: RuntimeSnapshot, revision: u32) -> bool {
    &&& snapshot.contract_version == APPLICATION_RUNTIME_CONTRACT_VERSION
    &&& snapshot.revision == revision
    &&& snapshot.session_id is None
    &&& snapshot.mode is None
    &&& snapshot.source is None
    &&& snapshot.lifecycle == SessionLifecycle::Stopped
    &&& snapshot.health.level == SessionHealthLevel::Healthy
    &&& snapshot.health.progress == SessionProgress::Idle
    &&& snapshot.health.message is None
    &&& snapshot.failure is None
}

/// Whether `snapshot` shows a session of `mode` that is starting, running
/// or waiting for its source.
pub open spec fn mode_is_live(snapshot: RuntimeSnapshot, mode: SessionMode) -> bool {
    &&& snapshot.mode == Some(mode)
    &&& (snapshot.lifecycle == SessionLifecycle::Starting || snapshot.lifecycle
        == SessionLifecycle::Running || snapshot.lifecycle == SessionLifecycle::Waiting)
}

impl RuntimeSnapshot {
    /// Whether a session of `mode` is live: starting, running or waiting.
    pub fn is_live(&self, mode: SessionMode) -> (live: bool)
        ensures
            live == mode_is_live(*self, mode),
    {
        self.mode == Some(mode) && (self.lifecycle == SessionLifecycle::Starting || self.lifecycle
            == SessionLifecycle::Running || self.lifecycle == SessionLifecycle::Waiting)
    }

    /// Whether session `session_id` is the current one and is in `lifecycle`.
    pub fn session_in(&self, session_id: SessionId, lifecycle: SessionLifecycle) -> (current: bool)
        ensures
            current == (self.session_id == Some(session_id) && self.lifecycle == lifecycle),
    {
        self.session_id == Some(session_id) && self.lifecycle == lifecycle
    }
}

impl Default for RuntimeSnapshot {
    fn default() -> (snapshot: Self)
        ensures
            is_idle_snapshot(snapshot, 0),
    {
        RuntimeSnapshot {
            contract_version: APPLICATION_RUNTIME_CONTRACT_VERSION,
            revision: 0,
            session_id: None,
            mode: None,
            source: None,
            lifecycle: SessionLifecycle::Stopped,
            health: RuntimeHealth::default(),
            failure: None,
        }
    }
}

#[derive(Clone, Debug, PartialEq, Eq)]
pub struct RuntimeBootstrap {
    pub snapshot: RuntimeSnapshot,
}

#[derive(Clone, Debug, PartialEq, Eq)]
pub struct RuntimeStateEvent {
    pub snapshot: RuntimeSnapshot,
}

// Session-facing desktop contracts live beside the lifecycle contract so the
// native adapter and its clients consume one schema. Capture backends keep
// their own platform contracts and are converted at the adapter edge.

#[derive(Clone, Debug, PartialEq, Eq)]
pub enum CaptureSelection {
    SystemDefault,
    SystemOutput { device_id: String },
    Application { source_id: String },
}

#[derive(Clone, Copy, Debug, PartialEq, Eq, Structural)]
pub enum CaptureState {
    Starting,
    Capturing,
    Waiting,
    Stopping,
    Stopped,
    Failed,
}

/// The capture state that the adapter shows for a session `lifecycle`.
pub open spec fn capture_state_spec(lifecycle: SessionLifecycle) -> CaptureState {
    match lifecycle {
        SessionLifecycle::Stopped => CaptureState::Stopped,
        SessionLifecycle::Starting => CaptureState::Starting,
        SessionLifecycle::Running => CaptureState::Capturing,
        SessionLifecycle::Waiting => CaptureState::Waiting,
        SessionLifecycle::Stopping => CaptureState::Stopping,
        SessionLifecycle::Failed => CaptureState::Failed,
    }
}

pub fn capture_state_for(lifecycle: SessionLifecycle) -> (state: CaptureState)
    ensures
        state == capture_state_spec(lifecycle),
{
    match lifecycle {
        SessionLifecycle::Stopped => CaptureState::Stopped,
        SessionLifecycle::Starting => CaptureState::Starting,
        SessionLifecycle::Running => CaptureState::Capturing,
        SessionLifecycle::Waiting => CaptureState::Waiting,
        SessionLifecycle::Stopping => CaptureState::Stopping,
        SessionLifecycle::Failed => CaptureState::Failed,
    }
}

#[derive(Clone, Debug, PartialEq, Eq)]
pub struct PlaybackDevice {
    pub id: String,
    pub name: String,
    pub is_default: bool,
}

#[derive(Clone, Debug, PartialEq, Eq)]
pub struct ApplicationSource {
    pub id: String,
    pub name: String,
    pub instance_count: u32,
    pub device_ids: Vec<String>,
}

#[derive(Clone, Debug, Default, PartialEq, Eq)]
pub struct SourceSnapshot {
    pub playback_devices: Vec<PlaybackDevice>,
    pub applications: Vec<ApplicationSource>,
}

#[derive(Clone, Debug, PartialEq, Eq)]
pub struct StartCaptureCommand {
    pub selection: CaptureSelection,
    pub language: String,
}

#[derive(Clone, Copy, Debug, PartialEq, Eq, Structural)]
pub enum VisualSourceKind {
    ApplicationWindow,
    Display,
}

#[derive(Clone, Debug, PartialEq, Eq)]
pub struct VisualSource {
    pub id: String,
    pub kind: VisualSourceKind,
    pub label: String,
    pub x: i32,
    pub y: i32,
    pub width: u32,
    pub height: u32,
}

#[derive(Clone, Debug, Default, PartialEq, Eq)]
pub struct VisualSourceSnapshot {
    pub windows: Vec<VisualSource>,
    pub displays: Vec<VisualSource>,
}

#[derive(Clone, Copy, Debug, PartialEq, Eq, Structural)]
pub struct PixelRect {
    pub x: u32,
    pub y: u32,
    pub width: u32,
    pub height: u32,
}

impl PixelRect {
    /// A non-empty rectangle that lies inside a `width` by `height` frame.
    pub open spec fn fits_within_spec(self, width: u32, height: u32) -> bool {
        &&& self.width > 0
        &&& self.height > 0
        &&& self.x + self.width <= width
        &&& self.y + self.height <= height
    }

    pub fn fits_within(self, width: u32, height: u32) -> (fits: bool)
        ensures
            fits == self.fits_within_spec(width, height),
    {
        self.width > 0 && self.height > 0 && match self.x.checked_add(self.width) {
            Some(right) => right <= width,
            None => false,
        } && match self.y.checked_add(self.height) {
            Some(bottom) => bottom <= height,
            None => false,
        }
    }
}

#[derive(Clone, Debug, PartialEq, Eq)]
pub struct VisualRegionSelectorRequest {
    pub display_id: String,
    pub width: u32,
    pub height: u32,
}

#[derive(Clone, Debug, PartialEq, Eq)]
pub struct VisualRegionSelected {
    pub display_id: String,
    pub region: PixelRect,
}

#[derive(Clone, Debug, PartialEq, Eq)]
pub struct ShowVisualRegionSelectorCommand {
    pub display_id: String,
}

#[derive(Clone, Debug, PartialEq, Eq)]
pub struct CompleteVisualRegionSelectionCommand {
    pub display_id: String,
    pub region: PixelRect,
}

#[derive(Clone, Debug, PartialEq, Eq)]
pub enum VisualCaptureSelection {
    ApplicationWindow { source_id: String },
    Display { source_id: String },
    Region { display_id: String, region: PixelRect },
}

#[derive(Clone, Copy, Debug, Default, PartialEq, Eq, Structural)]
pub enum VisualDetectionMode {
    #[default]
    Focused,
    AllText,
}

#[derive(Clone, Debug, PartialEq, Eq)]
pub struct VisualCaptureCapabilities {
    pub windows_graphics_capture: bool,
    pub system_picker: bool,
    pub desktop_duplication_experiment: bool,
    pub message: Option<String>,
}

#[derive(Clone, Copy, Debug, Default, PartialEq, Eq, Structural)]
pub enum VisualState {
    Starting,
    Capturing,
    Waiting,
    Stopping,
    #[default]
    Stopped,
    Failed,
}

#[derive(Debug, Default, PartialEq, Eq)]
pub struct VisualStatus {
    pub active: bool,
    pub state: VisualState,
    pub source_label: Option<String>,
    pub frames_received: u64,
    pub frames_analyzed: u64,
    pub frames_unchanged: u64,
    pub replaced_frames: u64,
    pub visible_regions: u64,
    pub overlay_regions: u64,
    pub message: Option<String>,
}

impl Clone for VisualStatus {
    fn clone(&self) -> (copy: Self)
        ensures
            copy == *self,
    {
        VisualStatus {
            active: self.active,
            state: self.state,
            source_label: clone_text(&self.source_label),
            frames_received: self.frames_received,
            frames_analyzed: self.frames_analyzed,
            frames_unchanged: self.frames_unchanged,
            replaced_frames: self.replaced_frames,
            visible_regions: self.visible_regions,
            overlay_regions: self.overlay_regions,
            message: clone_text(&self.message),
        }
    }
}

impl VisualStatus {
    /// The status of no visual session: inactive, stopped, all counters zero.
    pub open spec fn is_idle(self) -> bool {
        &&& !self.active
        &&& self.state == VisualState::Stopped
        &&& self.source_label is None
        &&& self.frames_received == 0
        &&& self.frames_analyzed == 0
        &&& self.frames_unchanged == 0
        &&& self.replaced_frames == 0
        &&& self.visible_regions == 0
        &&& self.overlay_regions == 0
        &&& self.message is None
    }

    pub fn idle() -> (status: Self)
        ensures
            status.is_idle(),
    {
        VisualStatus {
            active: false,
            state: VisualState::Stopped,
            source_label: None,
            frames_received: 0,
            frames_analyzed: 0,
            frames_unchanged: 0,
            replaced_frames: 0,
            visible_regions: 0,
            overlay_regions: 0,
            message: None,
        }
    }
}

#[derive(Clone, Debug, PartialEq, Eq)]
pub struct VisualCaptureGeometry {
    pub label: String,
    pub x: i32,
    pub y: i32,
    pub width: u32,
    pub height: u32,
}

#[derive(Clone, Copy, Debug, PartialEq, Eq, Structural)]
pub struct VisualTextClear {
    pub session_id: SessionId,
    pub runtime_revision: u32,
}

#[derive(Clone, Copy, Debug, PartialEq, Eq, Structural)]
pub enum CaptionOutputMode {
    Original,
    Translated,
    Both,
}

#[derive(Clone, Copy, Debug, PartialEq, Eq, Structural)]
pub enum CaptionPresentationPhase {
    Active,
    Holding,
    Cleared,
}

#[derive(Clone, Debug, PartialEq, Eq)]
pub struct CaptionPresentationEntry {
    pub key: String,
    pub source_language: String,
    pub original: String,
    pub translation: Option<String>,
    pub translation_pending: bool,
    pub is_final: bool,
}

#[derive(Clone, Debug, PartialEq, Eq)]
pub struct CaptionPresentationFrame {
    pub session_id: SessionId,
    pub runtime_revision: u32,
    pub presentation_revision: u64,
    pub phase: CaptionPresentationPhase,
    pub readable_at_ms: u64,
    pub mode: CaptionOutputMode,
    pub target_language: Option<String>,
    pub entries: Vec<CaptionPresentationEntry>,
}

#[derive(Clone, Debug, PartialEq, Eq)]
pub struct UpdateCaptionPresentationCommand {
    pub frame: CaptionPresentationFrame,
}

#[derive(Clone, Debug, PartialEq, Eq)]
pub struct StartVisualTranslationCommand {
    pub selection: VisualCaptureSelection,
    pub source_language: String,
    pub target_language: String,
    pub detection_mode: Option<VisualDetectionMode>,
}

#[derive(Clone, Copy, Debug, PartialEq, Eq, Hash, Structural)]
pub enum InferenceResourceKind {
    Speech,
    VisualOcr,
    Translation,
}

#[derive(Clone, Copy, Debug, PartialEq, Eq, Structural)]
pub enum InferenceResourcePhase {
    Loaded,
    Unloaded,
}

#[derive(Clone, Debug, PartialEq, Eq)]
pub struct ReportInferenceResourceCommand {
    pub session_id: SessionId,
    pub mode: SessionMode,
    pub owner_id: String,
    pub kind: InferenceResourceKind,
    pub phase: InferenceResourcePhase,
    pub model_id: Option<String>,
    pub cold_start_millis: u64,
}

#[derive(Clone, Debug, PartialEq, Eq)]
pub struct InferenceResourceStatus {
    pub session_id: SessionId,
    pub mode: SessionMode,
    pub kind: InferenceResourceKind,
    pub model_id: String,
    pub cold_start_millis: u64,
    pub resident_bytes_at_load: Option<u64>,
}

#[derive(Clone, Debug, Default, PartialEq, Eq)]
pub struct InferenceResourceSnapshot {
    pub revision: u64,
    pub process_resident_bytes: Option<u64>,
    pub resources: Vec<InferenceResourceStatus>,
}

} // verus!
