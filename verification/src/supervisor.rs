//! One authority for the audio and visual session lifecycle.

use std::collections::BTreeMap;
use vstd::prelude::*;

use crate::cancellation::CancellationToken;
use crate::contracts::{
    conflict_error, error_is, invalid_transition_error, is_idle_snapshot, no_active_session_error,
    shutdown_timed_out_error, stale_session_error, startup_cancelled_error, worker_exited_error,
    worker_panicked_error, ApplicationError, ApplicationErrorCode, ErrorRecoverability,
    RecoveryAction, RuntimeHealth, RuntimeSnapshot, SessionHealthLevel, SessionId,
    SessionLifecycle, SessionMode, SessionProgress, SessionSource, StartSessionRequest,
    APPLICATION_RUNTIME_CONTRACT_VERSION,
};

verus! {

#[derive(Clone, Debug)]
pub struct StartPermit {
    pub session_id: SessionId,
    pub cancellation: CancellationToken,
    pub snapshot: RuntimeSnapshot,
}

#[derive(Clone, Debug)]
pub struct StopPermit {
    pub session_id: SessionId,
    pub cancellation: CancellationToken,
    pub already_stopping: bool,
    pub snapshot: RuntimeSnapshot,
}

#[derive(Clone, Copy, Debug, PartialEq, Eq, Structural)]
pub enum WorkerLifetime {
    /// A finite worker such as model preparation. Successful completion is
    /// expected while the session continues starting.
    Startup,
    /// A worker expected to remain alive for the active session.
    Session,
    /// A finite worker responsible for cooperative shutdown and joining.
    Shutdown,
}

#[derive(Clone, Copy, Debug, PartialEq, Eq, Structural)]
pub enum WorkerRole {
    ModelPreparation,
    Capture,
    CaptureEvents,
    Transcription,
    VisualRecognition,
    VisualEvents,
    EventForwarder,
    Shutdown,
}

impl WorkerRole {
    /// The role as its display text spells it.
    pub open spec fn label_spec(self) -> Seq<char> {
        match self {
            WorkerRole::ModelPreparation => "model preparation"@,
            WorkerRole::Capture => "capture"@,
            WorkerRole::CaptureEvents => "capture event"@,
            WorkerRole::Transcription => "transcription"@,
            WorkerRole::VisualRecognition => "visual recognition"@,
            WorkerRole::VisualEvents => "visual capture event"@,
            WorkerRole::EventForwarder => "event forwarding"@,
            WorkerRole::Shutdown => "shutdown"@,
        }
    }

    pub fn label(self) -> (label: &'static str)
        ensures
            label@ == self.label_spec(),
    {
        proof {
            reveal_strlit("model preparation");
            reveal_strlit("capture");
            reveal_strlit("capture event");
            reveal_strlit("transcription");
            reveal_strlit("visual recognition");
            reveal_strlit("visual capture event");
            reveal_strlit("event forwarding");
            reveal_strlit("shutdown");
        }
        match self {
            WorkerRole::ModelPreparation => "model preparation",
            WorkerRole::Capture => "capture",
            WorkerRole::CaptureEvents => "capture event",
            WorkerRole::Transcription => "transcription",
            WorkerRole::VisualRecognition => "visual recognition",
            WorkerRole::VisualEvents => "visual capture event",
            WorkerRole::EventForwarder => "event forwarding",
            WorkerRole::Shutdown => "shutdown",
        }
    }
}

#[derive(Debug, PartialEq, Eq)]
pub enum WorkerOutcome {
    Completed,
    Cancelled,
    Exited,
    Failed(ApplicationError),
    Panicked,
}

impl Clone for WorkerOutcome {
    fn clone(&self) -> (copy: Self)
        ensures
            copy == *self,
    {
        match self {
            WorkerOutcome::Completed => WorkerOutcome::Completed,
            WorkerOutcome::Cancelled => WorkerOutcome::Cancelled,
            WorkerOutcome::Exited => WorkerOutcome::Exited,
            WorkerOutcome::Failed(error) => WorkerOutcome::Failed(error.clone()),
            WorkerOutcome::Panicked => WorkerOutcome::Panicked,
        }
    }
}

/// A terminal report of one registered worker, delivered to the supervisor.
#[derive(Debug)]
pub struct WorkerCompletion {
    pub session_id: SessionId,
    pub worker_id: u64,
    pub outcome: WorkerOutcome,
}

/// The identity handed to a worker when it is registered. The worker ends by
/// turning it into exactly one completion.
#[derive(Debug)]
pub struct WorkerReporter {
    session_id: SessionId,
    worker_id: u64,
}

impl WorkerReporter {
    pub closed spec fn session(&self) -> SessionId {
        self.session_id
    }

    pub closed spec fn worker(&self) -> u64 {
        self.worker_id
    }

    /// Reports an explicit outcome.
    pub fn finish(self, outcome: WorkerOutcome) -> (completion: WorkerCompletion)
        ensures
            completion.session_id == self.session(),
            completion.worker_id == self.worker(),
            completion.outcome == outcome,
    {
        WorkerCompletion { session_id: self.session_id, worker_id: self.worker_id, outcome }
    }

    /// Reports a worker that ended without an explicit outcome: a panic when
    /// it ended by unwinding, an unexpected exit otherwise.
    pub fn abandon(self, unwinding: bool) -> (completion: WorkerCompletion)
        ensures
            completion.session_id == self.session(),
            completion.worker_id == self.worker(),
            completion.outcome == (if unwinding {
                WorkerOutcome::Panicked
            } else {
                WorkerOutcome::Exited
            }),
    {
        let outcome = if unwinding {
            WorkerOutcome::Panicked
        } else {
            WorkerOutcome::Exited
        };
        self.finish(outcome)
    }
}

#[derive(Clone, Copy, Debug, PartialEq, Eq, Structural)]
pub struct WorkerRegistration {
    pub role: WorkerRole,
    pub lifetime: WorkerLifetime,
}

#[derive(Debug)]
struct ActiveSession {
    id: SessionId,
    cancellation: CancellationToken,
    cancelled: bool,
    workers: BTreeMap<u64, WorkerRegistration>,
    cleanup_finished: bool,
}

/// One authority for audio and visual session lifecycle.
#[derive(Debug)]
pub struct SessionSupervisor {
    snapshot: RuntimeSnapshot,
    active: Option<ActiveSession>,
    next_session_id: u32,
    next_worker_id: u64,
}

/// A lifecycle in which the session has been told to stop.
pub open spec fn winding_down(lifecycle: SessionLifecycle) -> bool {
    lifecycle == SessionLifecycle::Stopping || lifecycle == SessionLifecycle::Failed
}

impl SessionSupervisor {
    /// The last published snapshot.
    pub closed spec fn current(&self) -> RuntimeSnapshot {
        self.snapshot
    }

    /// The session that owns the runtime, if any.
    pub closed spec fn active_session(&self) -> Option<SessionId> {
        match self.active {
            Some(active) => Some(active.id),
            None => None,
        }
    }

    /// Whether the supervisor itself has cancelled the active session.
    pub closed spec fn stop_requested(&self) -> bool {
        match self.active {
            Some(active) => active.cancelled,
            None => false,
        }
    }

    /// The workers of the active session that have not yet reported.
    pub closed spec fn workers(&self) -> Map<u64, WorkerRegistration> {
        match self.active {
            Some(active) => active.workers@,
            None => Map::empty(),
        }
    }

    /// Whether platform cleanup of the active session has been reported.
    pub closed spec fn cleanup_reported(&self) -> bool {
        match self.active {
            Some(active) => active.cleanup_finished,
            None => false,
        }
    }

    pub closed spec fn next_session(&self) -> u32 {
        self.next_session_id
    }

    pub closed spec fn next_worker(&self) -> u64 {
        self.next_worker_id
    }

    /// The supervisor's internal invariant.
    pub closed spec fn wf(&self) -> bool {
        &&& self.snapshot.contract_version == APPLICATION_RUNTIME_CONTRACT_VERSION
        &&& self.next_session_id >= 1
        &&& self.active matches Some(active) ==> {
            &&& self.snapshot.session_id == Some(active.id)
            &&& active.id.0 < self.next_session_id
            &&& self.snapshot.lifecycle != SessionLifecycle::Stopped
            &&& active.cancelled == winding_down(self.snapshot.lifecycle)
            &&& forall|k: u64| #[trigger] active.workers@.contains_key(k) ==> k < self.next_worker_id
        }
    }
}

/// The session bookkeeping of `a` and `b` agree.
pub open spec fn same_bookkeeping(a: SessionSupervisor, b: SessionSupervisor) -> bool {
    &&& a.active_session() == b.active_session()
    &&& a.stop_requested() == b.stop_requested()
    &&& a.workers() == b.workers()
    &&& a.cleanup_reported() == b.cleanup_reported()
    &&& a.next_session() == b.next_session()
    &&& a.next_worker() == b.next_worker()
}

/// `b` is `a`, untouched.
pub open spec fn unchanged(a: SessionSupervisor, b: SessionSupervisor) -> bool {
    &&& same_bookkeeping(a, b)
    &&& a.current() == b.current()
}

/// `s` admits an operation on session `id`.
pub open spec fn admits(s: SessionSupervisor, id: SessionId) -> bool {
    s.active_session() == Some(id)
}

/// `error` is how `s` refuses an operation on session `id`.
pub open spec fn refusal(s: SessionSupervisor, id: SessionId, error: ApplicationError) -> bool {
    match s.active_session() {
        None => no_active_session_error(error),
        Some(active) => active != id && stale_session_error(error, id, active),
    }
}

/// `next` is published after `prev`: same contract, session and mode, next
/// revision.
pub open spec fn republished(prev: RuntimeSnapshot, next: RuntimeSnapshot) -> bool {
    &&& next.contract_version == prev.contract_version
    &&& next.revision == prev.revision + 1
    &&& next.session_id == prev.session_id
    &&& next.mode == prev.mode
}

/// Publishing from `s` cannot exhaust the revision space.
pub open spec fn can_publish(s: SessionSupervisor) -> bool {
    s.current().revision < u32::MAX
}

/// Whether a stop of `expected` publishes a new snapshot: it names the
/// active session, or none, and that session is not yet stopping.
pub open spec fn stop_publishes(s: SessionSupervisor, expected: Option<SessionId>) -> bool {
    &&& s.active_session() is Some
    &&& (expected is None || expected == s.active_session())
    &&& s.current().lifecycle != SessionLifecycle::Stopping
}

/// The snapshot that `fail_session` publishes for `error`, over `prev`.
pub open spec fn failed_snapshot(prev: RuntimeSnapshot, next: RuntimeSnapshot, error: ApplicationError) -> bool {
    &&& republished(prev, next)
    &&& next.source == prev.source
    &&& next.lifecycle == SessionLifecycle::Failed
    &&& next.health.level == SessionHealthLevel::Degraded
    &&& next.health.progress == SessionProgress::Failed
    &&& next.health.message matches Some(m) && m@ == error.message@
    &&& next.failure == Some(error)
}

/// `s` fails session `id` with `error`, giving `t` and `result`.
pub open spec fn fail_rel(
    s: SessionSupervisor,
    id: SessionId,
    error: ApplicationError,
    t: SessionSupervisor,
    result: Result<RuntimeSnapshot, ApplicationError>,
) -> bool {
    match result {
        Ok(snapshot) => {
            &&& admits(s, id)
            &&& failed_snapshot(s.current(), snapshot, error)
            &&& t.current() == snapshot
            &&& t.stop_requested()
            &&& t.active_session() == s.active_session()
            &&& t.workers() == s.workers()
            &&& t.cleanup_reported() == s.cleanup_reported()
            &&& t.next_session() == s.next_session()
            &&& t.next_worker() == s.next_worker()
        },
        Err(refused) => refusal(s, id, refused) && unchanged(s, t),
    }
}

/// `s` finalizes cleanup, giving `t` and `published`.
pub open spec fn finalize_rel(
    s: SessionSupervisor,
    t: SessionSupervisor,
    published: Option<RuntimeSnapshot>,
) -> bool {
    let ready = s.active_session() is Some && s.cleanup_reported() && s.workers().is_empty();
    if !ready {
        unchanged(s, t) && published is None
    } else {
        &&& t.active_session() is None
        &&& t.next_session() == s.next_session()
        &&& t.next_worker() == s.next_worker()
        &&& if s.current().lifecycle == SessionLifecycle::Stopping {
            &&& is_idle_snapshot(t.current(), (s.current().revision + 1) as u32)
            &&& published == Some(t.current())
        } else {
            t.current() == s.current() && published is None
        }
    }
}

/// The failure, if any, that `completion` of a worker registered as
/// `registration` reports while the session is in `lifecycle`.
pub open spec fn completion_failure(
    completion: WorkerCompletion,
    registration: WorkerRegistration,
    lifecycle: SessionLifecycle,
    error: ApplicationError,
) -> bool {
    let id = completion.session_id;
    let role = registration.role.label_spec();
    match completion.outcome {
        WorkerOutcome::Completed => registration.lifetime == WorkerLifetime::Session
            && !winding_down(lifecycle) && worker_exited_error(error, id, role),
        WorkerOutcome::Cancelled => !winding_down(lifecycle) && worker_exited_error(error, id, role),
        WorkerOutcome::Exited => worker_exited_error(error, id, role),
        WorkerOutcome::Failed(reported) => match reported.session_id {
            Some(_) => error == reported,
            None => error == (ApplicationError { session_id: Some(id), ..reported }),
        },
        WorkerOutcome::Panicked => worker_panicked_error(error, id, role),
    }
}

/// Whether `completion` reports a failure at all.
pub open spec fn completion_fails(
    completion: WorkerCompletion,
    registration: WorkerRegistration,
    lifecycle: SessionLifecycle,
) -> bool {
    match completion.outcome {
        WorkerOutcome::Completed => registration.lifetime == WorkerLifetime::Session
            && !winding_down(lifecycle),
        WorkerOutcome::Cancelled => !winding_down(lifecycle),
        _ => true,
    }
}

/// `s` applies one worker completion, giving `t` and `published`.
pub open spec fn completion_rel(
    s: SessionSupervisor,
    completion: WorkerCompletion,
    t: SessionSupervisor,
    published: Option<RuntimeSnapshot>,
) -> bool {
    if !(admits(s, completion.session_id) && s.workers().contains_key(completion.worker_id)) {
        unchanged(s, t) && published is None
    } else {
        let registration = s.workers()[completion.worker_id];
        let lifecycle = s.current().lifecycle;
        let remaining = s.workers().remove(completion.worker_id);
        if completion_fails(completion, registration, lifecycle) {
            exists|error: ApplicationError|
                #![trigger completion_failure(completion, registration, lifecycle, error)]
                {
                    &&& completion_failure(completion, registration, lifecycle, error)
                    &&& published matches Some(snapshot)
                    &&& failed_snapshot(s.current(), snapshot, error)
                    &&& t.current() == snapshot
                    &&& t.stop_requested()
                    &&& t.active_session() == s.active_session()
                    &&& t.workers() == remaining
                    &&& t.cleanup_reported() == s.cleanup_reported()
                    &&& t.next_session() == s.next_session()
                    &&& t.next_worker() == s.next_worker()
                }
        } else {
            let ready = s.cleanup_reported() && remaining.is_empty();
            if !ready {
                &&& published is None
                &&& t.current() == s.current()
                &&& t.active_session() == s.active_session()
                &&& t.stop_requested() == s.stop_requested()
                &&& t.workers() == remaining
                &&& t.cleanup_reported() == s.cleanup_reported()
                &&& t.next_session() == s.next_session()
                &&& t.next_worker() == s.next_worker()
            } else {
                &&& t.active_session() is None
                &&& t.next_session() == s.next_session()
                &&& t.next_worker() == s.next_worker()
                &&& if lifecycle == SessionLifecycle::Stopping {
                    &&& is_idle_snapshot(t.current(), (s.current().revision + 1) as u32)
                    &&& published == Some(t.current())
                } else {
                    t.current() == s.current() && published is None
                }
            }
        }
    }
}

/// The snapshots among `published`, in order.
pub open spec fn published_only(published: Seq<Option<RuntimeSnapshot>>) -> Seq<RuntimeSnapshot>
    decreases published.len(),
{
    if published.len() == 0 {
        Seq::empty()
    } else {
        let rest = published_only(published.drop_last());
        match published.last() {
            Some(snapshot) => rest.push(snapshot),
            None => rest,
        }
    }
}


/// `s` applies `completions` in order, one `completion_rel` step each, and
/// ends as `t`; `published` holds the snapshots those steps published.
pub open spec fn drain_rel(
    s: SessionSupervisor,
    completions: Seq<WorkerCompletion>,
    t: SessionSupervisor,
    published: Seq<RuntimeSnapshot>,
) -> bool {
    exists|states: Seq<SessionSupervisor>, outs: Seq<Option<RuntimeSnapshot>>|
        {
            &&& states.len() == completions.len() + 1
            &&& outs.len() == completions.len()
            &&& states[0] == s
            &&& states.last() == t
            &&& forall|i: int|
                0 <= i < completions.len() ==> #[trigger] completion_rel(
                    states[i],
                    completions[i],
                    states[i + 1],
                    outs[i],
                )
            &&& published == published_only(outs)
        }
}

/// The errors raised when an identifier space is exhausted.
pub open spec fn session_space_exhausted(error: ApplicationError) -> bool {
    error_is(
        error,
        ApplicationErrorCode::Internal,
        "The session identifier space was exhausted."@,
        ErrorRecoverability::RestartRequired,
        RecoveryAction::RestartApplication,
        None,
    )
}

pub open spec fn worker_space_exhausted(error: ApplicationError, id: SessionId) -> bool {
    error_is(
        error,
        ApplicationErrorCode::Internal,
        "The worker identifier space was exhausted."@,
        ErrorRecoverability::RestartRequired,
        RecoveryAction::RestartApplication,
        Some(id),
    )
}

pub open spec fn mode_conflict_error(error: ApplicationError, active: SessionId) -> bool {
    error_is(
        error,
        ApplicationErrorCode::SessionConflict,
        "A different Prollyglot session owns the runtime."@,
        ErrorRecoverability::UserActionRequired,
        RecoveryAction::StopAndRetry,
        Some(active),
    )
}

/// `s` starts a session for `request`, giving `t` and `result`.
pub open spec fn start_rel(
    s: SessionSupervisor,
    request: StartSessionRequest,
    t: SessionSupervisor,
    result: Result<StartPermit, ApplicationError>,
) -> bool {
    match s.active_session() {
        Some(active) => result matches Err(error) && conflict_error(error, active) && unchanged(s, t),
        None => if s.next_session() == u32::MAX {
            result matches Err(error) && session_space_exhausted(error) && unchanged(s, t)
        } else {
            result matches Ok(permit) && {
                let id = SessionId(s.next_session());
                let snapshot = t.current();
                &&& permit.session_id == id
                &&& permit.snapshot == snapshot
                &&& t.active_session() == Some(id)
                &&& !t.stop_requested()
                &&& t.workers() == Map::<u64, WorkerRegistration>::empty()
                &&& !t.cleanup_reported()
                &&& t.next_session() == s.next_session() + 1
                &&& t.next_worker() == s.next_worker()
                &&& snapshot.contract_version == APPLICATION_RUNTIME_CONTRACT_VERSION
                &&& snapshot.revision == s.current().revision + 1
                &&& snapshot.session_id == Some(id)
                &&& snapshot.mode == Some(request.mode)
                &&& snapshot.source == Some(request.source)
                &&& snapshot.lifecycle == SessionLifecycle::Starting
                &&& snapshot.health == RuntimeHealth {
                    level: SessionHealthLevel::Healthy,
                    progress: SessionProgress::PreparingModel,
                    message: None,
                }
                &&& snapshot.failure is None
            }
        },
    }
}

/// `result` publishes `next` from `s` as `t`, keeping the bookkeeping.
pub open spec fn publishes(
    s: SessionSupervisor,
    t: SessionSupervisor,
    result: Result<RuntimeSnapshot, ApplicationError>,
    next: RuntimeSnapshot,
) -> bool {
    &&& result == Ok::<RuntimeSnapshot, ApplicationError>(next)
    &&& next.revision == s.current().revision + 1
    &&& t.current() == next
    &&& same_bookkeeping(s, t)
}

/// `s` records startup `progress` for session `id`, when the session's
/// shared cancellation flag reads `raised`.
pub open spec fn progress_step_rel(
    s: SessionSupervisor,
    id: SessionId,
    progress: SessionProgress,
    message: Option<String>,
    raised: bool,
    t: SessionSupervisor,
    result: Result<RuntimeSnapshot, ApplicationError>,
) -> bool {
    let lifecycle = s.current().lifecycle;
    if !admits(s, id) {
        (result matches Err(error) && refusal(s, id, error)) && unchanged(s, t)
    } else if lifecycle != SessionLifecycle::Starting {
        (result matches Err(error) && invalid_transition_error(
            error,
            id,
            lifecycle,
            "update startup progress"@,
        )) && unchanged(s, t)
    } else if s.stop_requested() || raised {
        (result matches Err(error) && startup_cancelled_error(error, id)) && unchanged(s, t)
    } else {
        publishes(
            s,
            t,
            result,
            RuntimeSnapshot {
                revision: (s.current().revision + 1) as u32,
                health: RuntimeHealth { level: SessionHealthLevel::Healthy, progress, message },
                ..s.current()
            },
        )
    }
}

/// `s` records startup `progress` for session `id`, whichever way the
/// session's shared cancellation flag read.
pub open spec fn progress_rel(
    s: SessionSupervisor,
    id: SessionId,
    progress: SessionProgress,
    message: Option<String>,
    t: SessionSupervisor,
    result: Result<RuntimeSnapshot, ApplicationError>,
) -> bool {
    ||| progress_step_rel(s, id, progress, message, false, t, result)
    ||| progress_step_rel(s, id, progress, message, true, t, result)
}

/// `s` records the resolved `source` of session `id`.
pub open spec fn source_rel(
    s: SessionSupervisor,
    id: SessionId,
    source: SessionSource,
    t: SessionSupervisor,
    result: Result<RuntimeSnapshot, ApplicationError>,
) -> bool {
    let lifecycle = s.current().lifecycle;
    let closed = lifecycle == SessionLifecycle::Stopping || lifecycle == SessionLifecycle::Failed
        || lifecycle == SessionLifecycle::Stopped;
    match result {
        Ok(_) => admits(s, id) && !closed && publishes(
            s,
            t,
            result,
            RuntimeSnapshot {
                revision: (s.current().revision + 1) as u32,
                source: Some(source),
                ..s.current()
            },
        ),
        Err(error) => unchanged(s, t) && {
            ||| refusal(s, id, error)
            ||| admits(s, id) && closed && invalid_transition_error(
                error,
                id,
                lifecycle,
                "update the session source"@,
            )
        },
    }
}

/// `s` marks session `id` running, when the session's shared cancellation
/// flag reads `raised`.
pub open spec fn running_step_rel(
    s: SessionSupervisor,
    id: SessionId,
    raised: bool,
    t: SessionSupervisor,
    result: Result<RuntimeSnapshot, ApplicationError>,
) -> bool {
    let lifecycle = s.current().lifecycle;
    let startable = lifecycle == SessionLifecycle::Starting || lifecycle
        == SessionLifecycle::Waiting;
    if !admits(s, id) {
        (result matches Err(error) && refusal(s, id, error)) && unchanged(s, t)
    } else if s.stop_requested() || raised {
        (result matches Err(error) && startup_cancelled_error(error, id)) && unchanged(s, t)
    } else if !startable {
        (result matches Err(error) && invalid_transition_error(
            error,
            id,
            lifecycle,
            "mark the session running"@,
        )) && unchanged(s, t)
    } else {
        publishes(
            s,
            t,
            result,
            RuntimeSnapshot {
                revision: (s.current().revision + 1) as u32,
                lifecycle: SessionLifecycle::Running,
                health: RuntimeHealth {
                    level: SessionHealthLevel::Healthy,
                    progress: SessionProgress::Live,
                    message: None,
                },
                failure: None,
                ..s.current()
            },
        )
    }
}

/// `s` marks session `id` running, whichever way the session's shared
/// cancellation flag read.
pub open spec fn running_rel(
    s: SessionSupervisor,
    id: SessionId,
    t: SessionSupervisor,
    result: Result<RuntimeSnapshot, ApplicationError>,
) -> bool {
    ||| running_step_rel(s, id, false, t, result)
    ||| running_step_rel(s, id, true, t, result)
}

/// `s` marks session `id` waiting for its source, explaining with `message`.
pub open spec fn waiting_rel(
    s: SessionSupervisor,
    id: SessionId,
    message: Seq<char>,
    t: SessionSupervisor,
    result: Result<RuntimeSnapshot, ApplicationError>,
) -> bool {
    let lifecycle = s.current().lifecycle;
    let live = lifecycle == SessionLifecycle::Starting || lifecycle == SessionLifecycle::Running
        || lifecycle == SessionLifecycle::Waiting;
    match result {
        Ok(next) => admits(s, id) && live && publishes(s, t, result, next) && {
            &&& next.contract_version == s.current().contract_version
            &&& next.session_id == s.current().session_id
            &&& next.mode == s.current().mode
            &&& next.source == s.current().source
            &&& next.failure == s.current().failure
            &&& next.lifecycle == SessionLifecycle::Waiting
            &&& next.health.level == SessionHealthLevel::Recovering
            &&& next.health.progress == SessionProgress::WaitingForSource
            &&& next.health.message matches Some(m) && m@ == message
        },
        Err(error) => unchanged(s, t) && {
            ||| refusal(s, id, error)
            ||| admits(s, id) && !live && invalid_transition_error(
                error,
                id,
                lifecycle,
                "wait for the source"@,
            )
        },
    }
}

/// `s` records the health `level` of session `id`.
pub open spec fn health_rel(
    s: SessionSupervisor,
    id: SessionId,
    level: SessionHealthLevel,
    message: Option<String>,
    t: SessionSupervisor,
    result: Result<RuntimeSnapshot, ApplicationError>,
) -> bool {
    let lifecycle = s.current().lifecycle;
    let live = lifecycle == SessionLifecycle::Running || lifecycle == SessionLifecycle::Waiting;
    match result {
        Ok(_) => admits(s, id) && live && publishes(
            s,
            t,
            result,
            RuntimeSnapshot {
                revision: (s.current().revision + 1) as u32,
                health: RuntimeHealth {
                    level,
                    progress: if lifecycle == SessionLifecycle::Waiting {
                        SessionProgress::WaitingForSource
                    } else {
                        SessionProgress::Live
                    },
                    message,
                },
                ..s.current()
            },
        ),
        Err(error) => unchanged(s, t) && {
            ||| refusal(s, id, error)
            ||| admits(s, id) && !live && invalid_transition_error(
                error,
                id,
                lifecycle,
                "update runtime health"@,
            )
        },
    }
}

/// `s` stops the active session, expected to be `expected` when given.
pub open spec fn stop_rel(
    s: SessionSupervisor,
    expected: Option<SessionId>,
    t: SessionSupervisor,
    result: Result<StopPermit, ApplicationError>,
) -> bool {
    match s.active_session() {
        None => result matches Err(error) && no_active_session_error(error) && unchanged(s, t),
        Some(active) => if expected is Some && expected->0 != active {
            result matches Err(error) && stale_session_error(error, expected->0, active) && unchanged(s, t)
        } else {
            result matches Ok(permit) && {
                &&& permit.session_id == active
                &&& t.stop_requested()
                &&& t.active_session() == s.active_session()
                &&& t.workers() == s.workers()
                &&& t.cleanup_reported() == s.cleanup_reported()
                &&& t.next_session() == s.next_session()
                &&& t.next_worker() == s.next_worker()
                &&& if s.current().lifecycle == SessionLifecycle::Stopping {
                    &&& permit.already_stopping
                    &&& permit.snapshot == s.current()
                    &&& t.current() == s.current()
                } else {
                    &&& !permit.already_stopping
                    &&& permit.snapshot == t.current()
                    &&& t.current() == RuntimeSnapshot {
                        revision: (s.current().revision + 1) as u32,
                        lifecycle: SessionLifecycle::Stopping,
                        health: RuntimeHealth {
                            level: SessionHealthLevel::Healthy,
                            progress: SessionProgress::Stopping,
                            message: None,
                        },
                        ..s.current()
                    }
                }
            }
        },
    }
}

/// `s` stops the active session only when it runs in `mode`.
pub open spec fn stop_for_mode_rel(
    s: SessionSupervisor,
    mode: SessionMode,
    t: SessionSupervisor,
    result: Result<StopPermit, ApplicationError>,
) -> bool {
    match s.active_session() {
        None => result matches Err(error) && no_active_session_error(error) && unchanged(s, t),
        Some(active) => if s.current().mode != Some(mode) {
            result matches Err(error) && mode_conflict_error(error, active) && unchanged(s, t)
        } else {
            stop_rel(s, Some(active), t, result)
        },
    }
}

/// `s` registers a worker of session `id`.
pub open spec fn register_rel(
    s: SessionSupervisor,
    id: SessionId,
    role: WorkerRole,
    lifetime: WorkerLifetime,
    t: SessionSupervisor,
    result: Result<WorkerReporter, ApplicationError>,
) -> bool {
    match result {
        Ok(reporter) => {
            &&& admits(s, id)
            &&& s.next_worker() < u64::MAX
            &&& reporter.session() == id
            &&& reporter.worker() == s.next_worker()
            &&& t.workers() == s.workers().insert(
                s.next_worker(),
                WorkerRegistration { role, lifetime },
            )
            &&& t.next_worker() == s.next_worker() + 1
            &&& t.current() == s.current()
            &&& t.active_session() == s.active_session()
            &&& t.stop_requested() == s.stop_requested()
            &&& t.cleanup_reported() == s.cleanup_reported()
            &&& t.next_session() == s.next_session()
        },
        Err(error) => unchanged(s, t) && {
            ||| refusal(s, id, error)
            ||| admits(s, id) && s.next_worker() == u64::MAX && worker_space_exhausted(error, id)
        },
    }
}

/// `error` with its session filled in as `id` when it names none.
pub open spec fn owned_by(error: ApplicationError, id: SessionId) -> ApplicationError {
    match error.session_id {
        Some(_) => error,
        None => ApplicationError { session_id: Some(id), ..error },
    }
}

/// `s` learns that the platform cleanup of session `id` ended with `outcome`.
pub open spec fn cleanup_rel(
    s: SessionSupervisor,
    id: SessionId,
    outcome: Result<(), ApplicationError>,
    t: SessionSupervisor,
    result: Result<Option<RuntimeSnapshot>, ApplicationError>,
) -> bool {
    let drained = s.workers().is_empty();
    match result {
        Err(error) => !admits(s, id) && refusal(s, id, error) && unchanged(s, t),
        Ok(published) => admits(s, id) && t.next_session() == s.next_session() && t.next_worker()
            == s.next_worker() && match outcome {
            Err(reported) => {
                &&& published matches Some(snapshot)
                &&& failed_snapshot(s.current(), snapshot, owned_by(reported, id))
                &&& t.current() == snapshot
                &&& if drained {
                    t.active_session() is None
                } else {
                    &&& t.active_session() == s.active_session()
                    &&& t.stop_requested()
                    &&& t.workers() == s.workers()
                    &&& t.cleanup_reported()
                }
            },
            Ok(()) => if drained {
                &&& t.active_session() is None
                &&& if s.current().lifecycle == SessionLifecycle::Stopping {
                    &&& is_idle_snapshot(t.current(), (s.current().revision + 1) as u32)
                    &&& published == Some(t.current())
                } else {
                    t.current() == s.current() && published is None
                }
            } else {
                &&& published is None
                &&& t.current() == s.current()
                &&& t.active_session() == s.active_session()
                &&& t.stop_requested() == s.stop_requested()
                &&& t.workers() == s.workers()
                &&& t.cleanup_reported()
            },
        },
    }
}

impl SessionSupervisor {
    pub fn new() -> (supervisor: Self)
        ensures
            supervisor.wf(),
            is_idle_snapshot(supervisor.current(), 0),
            supervisor.active_session() is None,
            supervisor.next_session() == 1,
            supervisor.next_worker() == 1,
    {
        SessionSupervisor {
            snapshot: RuntimeSnapshot::default(),
            active: None,
            next_session_id: 1,
            next_worker_id: 1,
        }
    }

    pub fn snapshot(&self) -> (snapshot: RuntimeSnapshot)
        ensures
            snapshot == self.current(),
    {
        self.snapshot.clone()
    }

    pub fn has_active_session(&self) -> (active: bool)
        ensures
            active == (self.active_session() is Some),
    {
        self.active.is_some()
    }

    /// The mode of the active session, if a session is active.
    pub fn active_mode(&self) -> (mode: Option<SessionMode>)
        ensures
            mode == (if self.active_session() is Some { self.current().mode } else { None }),
    {
        if self.active.is_none() {
            return None;
        }
        self.snapshot.mode
    }

    fn require_session(&self, expected: SessionId) -> (result: Result<(), ApplicationError>)
        ensures
            result is Ok <==> admits(*self, expected),
            result matches Err(error) ==> refusal(*self, expected, error),
    {
        match &self.active {
            None => Err(ApplicationError::no_active_session()),
            Some(active) => {
                if active.id != expected {
                    Err(ApplicationError::stale_session(expected, active.id))
                } else {
                    Ok(())
                }
            },
        }
    }

    fn publish(&mut self, next: RuntimeSnapshot) -> (published: RuntimeSnapshot)
        requires
            old(self).snapshot.revision < u32::MAX,
        ensures
            published == (RuntimeSnapshot { revision: (old(self).snapshot.revision + 1) as u32, ..next }),
            final(self).snapshot == published,
            final(self).active == old(self).active,
            final(self).next_session_id == old(self).next_session_id,
            final(self).next_worker_id == old(self).next_worker_id,
    {
        let mut next = next;
        next.revision = self.snapshot.revision + 1;
        self.snapshot = next.clone();
        next
    }

    fn fail_session(&mut self, session_id: SessionId, error: ApplicationError) -> (result: Result<
        RuntimeSnapshot,
        ApplicationError,
    >)
        requires
            old(self).wf(),
            admits(*old(self), session_id) ==> can_publish(*old(self)),
        ensures
            final(self).wf(),
            fail_rel(*old(self), session_id, error, *final(self), result),
    {
        if let Err(refused) = self.require_session(session_id) {
            return Err(refused);
        }
        match &mut self.active {
            Some(active) => {
                active.cancellation.cancel();
                active.cancelled = true;
            },
            None => {},
        }
        let mut next = self.snapshot.clone();
        next.lifecycle = SessionLifecycle::Failed;
        next.health = RuntimeHealth::degraded(error.message.as_str());
        next.failure = Some(error);
        Ok(self.publish(next))
    }

    fn try_finalize_cleanup(&mut self) -> (published: Option<RuntimeSnapshot>)
        requires
            old(self).wf(),
            old(self).current().lifecycle == SessionLifecycle::Stopping ==> can_publish(*old(self)),
        ensures
            final(self).wf(),
            finalize_rel(*old(self), *final(self), published),
    {
        let ready = match &self.active {
            Some(active) => active.cleanup_finished && active.workers.is_empty(),
            None => false,
        };
        if !ready {
            return None;
        }
        let lifecycle = self.snapshot.lifecycle;
        self.active = None;
        if lifecycle != SessionLifecycle::Stopping {
            // Preserve a terminal failure after its resources are gone. A new
            // start is now legal and will replace this snapshot.
            return None;
        }
        Some(self.publish(RuntimeSnapshot::default()))
    }

    /// Applies one worker's terminal report. A report of a worker that the
    /// current session did not register, or that already reported, changes
    /// nothing.
    pub fn apply_worker_completion(&mut self, completion: WorkerCompletion) -> (published: Option<
        RuntimeSnapshot,
    >)
        requires
            old(self).wf(),
            admits(*old(self), completion.session_id) && old(self).workers().contains_key(
                completion.worker_id,
            ) ==> can_publish(*old(self)),
        ensures
            final(self).wf(),
            completion_rel(*old(self), completion, *final(self), published),
    {
        broadcast use vstd::laws_cmp::group_laws_cmp, vstd::std_specs::btree::group_btree_axioms;

        let ghost reported = completion;
        let registration = match &mut self.active {
            None => {
                return None;
            },
            Some(active) => {
                if active.id != completion.session_id {
                    return None;
                }
                match active.workers.remove(&completion.worker_id) {
                    Some(registration) => registration,
                    None => {
                        assert(active.workers@ =~= old(self).workers());
                        return None;
                    },
                }
            },
        };
        let lifecycle = self.snapshot.lifecycle;
        let winding = lifecycle == SessionLifecycle::Stopping || lifecycle == SessionLifecycle::Failed;
        let session_id = completion.session_id;
        let failure = match completion.outcome {
            WorkerOutcome::Completed => {
                if registration.lifetime == WorkerLifetime::Session && !winding {
                    Some(ApplicationError::worker_exited(session_id, registration.role.label()))
                } else {
                    None
                }
            },
            WorkerOutcome::Cancelled => {
                if !winding {
                    Some(ApplicationError::worker_exited(session_id, registration.role.label()))
                } else {
                    None
                }
            },
            WorkerOutcome::Exited => Some(
                ApplicationError::worker_exited(session_id, registration.role.label()),
            ),
            WorkerOutcome::Failed(error) => {
                let mut error = error;
                if error.session_id.is_none() {
                    error.session_id = Some(session_id);
                }
                Some(error)
            },
            WorkerOutcome::Panicked => Some(
                ApplicationError::worker_panicked(session_id, registration.role.label()),
            ),
        };
        if let Some(error) = failure {
            assert(completion_failure(reported, registration, lifecycle, error));
            return self.fail_session(session_id, error).ok();
        }
        self.try_finalize_cleanup()
    }

    /// Applies, in order, every completion that has arrived, and returns the
    /// snapshots those completions published.
    pub fn drain_worker_completions(&mut self, completions: Vec<WorkerCompletion>) -> (published:
        Vec<RuntimeSnapshot>)
        requires
            old(self).wf(),
            old(self).current().revision + completions.len() <= u32::MAX,
        ensures
            final(self).wf(),
            drain_rel(*old(self), completions@, *final(self), published@),
    {
        let mut published: Vec<RuntimeSnapshot> = Vec::new();
        let mut pending = completions;
        let count = pending.len();
        let ghost all = pending@;
        let ghost start = *self;
        let ghost mut states: Seq<SessionSupervisor> = seq![*self];
        let ghost mut outs: Seq<Option<RuntimeSnapshot>> = Seq::empty();
        let mut index: usize = 0;
        while index < count
            invariant
                self.wf(),
                count == all.len(),
                index <= count,
                pending@ == all.skip(index as int),
                states.len() == index + 1,
                outs.len() == index,
                states[0] == start,
                states.last() == *self,
                self.current().revision <= start.current().revision + index,
                start.current().revision + count <= u32::MAX,
                forall|i: int|
                    0 <= i < index ==> #[trigger] completion_rel(states[i], all[i], states[i + 1], outs[i]),
                published@ == published_only(outs),
            decreases count - index,
        {
            let completion = pending.remove(0);
            assert(completion == all[index as int]);
            let out = self.apply_worker_completion(completion);
            proof {
                let prev = outs;
                states = states.push(*self);
                outs = outs.push(out);
                assert(outs.drop_last() =~= prev);
            }
            match out {
                Some(snapshot) => published.push(snapshot),
                None => {},
            }
            index = index + 1;
            assert(pending@ =~= all.skip(index as int));
        }
        assert(all.skip(count as int) =~= Seq::<WorkerCompletion>::empty());
        published
    }

    pub fn start(&mut self, request: StartSessionRequest) -> (result: Result<StartPermit, ApplicationError>)
        requires
            old(self).wf(),
            old(self).active_session() is None ==> can_publish(*old(self)),
        ensures
            final(self).wf(),
            start_rel(*old(self), request, *final(self), result),
    {
        if let Some(active) = &self.active {
            return Err(ApplicationError::conflict(active.id));
        }
        let session_id = SessionId(self.next_session_id);
        if self.next_session_id == u32::MAX {
            return Err(ApplicationError::new(
                ApplicationErrorCode::Internal,
                "The session identifier space was exhausted.",
                ErrorRecoverability::RestartRequired,
                RecoveryAction::RestartApplication,
            ));
        }
        self.next_session_id = self.next_session_id + 1;
        let cancellation = CancellationToken::new();
        self.active = Some(ActiveSession {
            id: session_id,
            cancellation: cancellation.clone(),
            cancelled: false,
            workers: BTreeMap::new(),
            cleanup_finished: false,
        });
        let mut next = RuntimeSnapshot::default();
        next.session_id = Some(session_id);
        next.mode = Some(request.mode);
        next.source = Some(request.source);
        next.lifecycle = SessionLifecycle::Starting;
        next.health = RuntimeHealth::healthy(SessionProgress::PreparingModel, None);
        next.failure = None;
        let snapshot = self.publish(next);
        Ok(StartPermit { session_id, cancellation, snapshot })
    }

    /// Whether the supervisor itself asked the active session to stop.
    fn stop_was_requested(&self) -> (requested: bool)
        ensures
            requested == self.stop_requested(),
    {
        match &self.active {
            Some(active) => active.cancelled,
            None => false,
        }
    }

    /// Whether the active session has been cancelled by anyone: always when
    /// the supervisor itself asked it to stop, never without an active
    /// session, and otherwise as its shared cancellation flag shows, which
    /// any holder of the flag may have raised.
    fn startup_cancelled(&self) -> (cancelled: bool)
        ensures
            self.stop_requested() ==> cancelled,
            self.active_session() is None ==> !cancelled,
    {
        match &self.active {
            Some(active) => active.cancelled || active.cancellation.is_cancelled(),
            None => false,
        }
    }

    /// Records startup progress, reading the session's shared cancellation
    /// flag, which any of its holders may have raised.
    pub fn update_start_progress(
        &mut self,
        session_id: SessionId,
        progress: SessionProgress,
        message: Option<String>,
    ) -> (result: Result<RuntimeSnapshot, ApplicationError>)
        requires
            old(self).wf(),
            admits(*old(self), session_id) ==> can_publish(*old(self)),
        ensures
            final(self).wf(),
            progress_rel(*old(self), session_id, progress, message, *final(self), result),
    {
        let raised = self.startup_cancelled();
        self.record_start_progress(session_id, progress, message, raised)
    }

    /// Records startup progress of session `session_id`, given that its
    /// shared cancellation flag read `cancellation_raised`: the progress is
    /// published exactly when the session is the active one, still starting,
    /// and cancelled neither by the supervisor nor through the flag.
    pub fn record_start_progress(
        &mut self,
        session_id: SessionId,
        progress: SessionProgress,
        message: Option<String>,
        cancellation_raised: bool,
    ) -> (result: Result<RuntimeSnapshot, ApplicationError>)
        requires
            old(self).wf(),
            admits(*old(self), session_id) ==> can_publish(*old(self)),
        ensures
            final(self).wf(),
            progress_step_rel(
                *old(self),
                session_id,
                progress,
                message,
                cancellation_raised,
                *final(self),
                result,
            ),
    {
        if let Err(refused) = self.require_session(session_id) {
            return Err(refused);
        }
        if self.snapshot.lifecycle != SessionLifecycle::Starting {
            return Err(
                ApplicationError::invalid_transition(
                    session_id,
                    self.snapshot.lifecycle,
                    "update startup progress",
                ),
            );
        }
        if self.stop_was_requested() || cancellation_raised {
            return Err(ApplicationError::startup_cancelled(session_id));
        }
        let mut next = self.snapshot.clone();
        next.health = RuntimeHealth::healthy(progress, message);
        Ok(self.publish(next))
    }

    pub fn update_source(&mut self, session_id: SessionId, source: SessionSource) -> (result: Result<
        RuntimeSnapshot,
        ApplicationError,
    >)
        requires
            old(self).wf(),
            admits(*old(self), session_id) ==> can_publish(*old(self)),
        ensures
            final(self).wf(),
            source_rel(*old(self), session_id, source, *final(self), result),
    {
        if let Err(refused) = self.require_session(session_id) {
            return Err(refused);
        }
        let lifecycle = self.snapshot.lifecycle;
        if lifecycle == SessionLifecycle::Stopping || lifecycle == SessionLifecycle::Failed
            || lifecycle == SessionLifecycle::Stopped {
            return Err(
                ApplicationError::invalid_transition(
                    session_id,
                    lifecycle,
                    "update the session source",
                ),
            );
        }
        let mut next = self.snapshot.clone();
        next.source = Some(source);
        Ok(self.publish(next))
    }

    /// Marks the session running, reading the session's shared cancellation
    /// flag, which any of its holders may have raised.
    pub fn mark_running(&mut self, session_id: SessionId) -> (result: Result<RuntimeSnapshot, ApplicationError>)
        requires
            old(self).wf(),
            admits(*old(self), session_id) ==> can_publish(*old(self)),
        ensures
            final(self).wf(),
            running_rel(*old(self), session_id, *final(self), result),
    {
        let raised = self.startup_cancelled();
        self.enter_running(session_id, raised)
    }

    /// Marks session `session_id` running, given that its shared
    /// cancellation flag read `cancellation_raised`: it runs exactly when it
    /// is the active session, is starting or waiting, and is cancelled
    /// neither by the supervisor nor through the flag.
    pub fn enter_running(&mut self, session_id: SessionId, cancellation_raised: bool) -> (result:
        Result<RuntimeSnapshot, ApplicationError>)
        requires
            old(self).wf(),
            admits(*old(self), session_id) ==> can_publish(*old(self)),
        ensures
            final(self).wf(),
            running_step_rel(*old(self), session_id, cancellation_raised, *final(self), result),
    {
        if let Err(refused) = self.require_session(session_id) {
            return Err(refused);
        }
        if self.stop_was_requested() || cancellation_raised {
            return Err(ApplicationError::startup_cancelled(session_id));
        }
        let lifecycle = self.snapshot.lifecycle;
        if !(lifecycle == SessionLifecycle::Starting || lifecycle == SessionLifecycle::Waiting) {
            return Err(
                ApplicationError::invalid_transition(
                    session_id,
                    lifecycle,
                    "mark the session running",
                ),
            );
        }
        let mut next = self.snapshot.clone();
        next.lifecycle = SessionLifecycle::Running;
        next.health = RuntimeHealth::healthy(SessionProgress::Live, None);
        next.failure = None;
        Ok(self.publish(next))
    }

    pub fn mark_waiting(&mut self, session_id: SessionId, message: &str) -> (result: Result<
        RuntimeSnapshot,
        ApplicationError,
    >)
        requires
            old(self).wf(),
            admits(*old(self), session_id) ==> can_publish(*old(self)),
        ensures
            final(self).wf(),
            waiting_rel(*old(self), session_id, message@, *final(self), result),
    {
        if let Err(refused) = self.require_session(session_id) {
            return Err(refused);
        }
        let lifecycle = self.snapshot.lifecycle;
        if !(lifecycle == SessionLifecycle::Starting || lifecycle == SessionLifecycle::Running
            || lifecycle == SessionLifecycle::Waiting) {
            return Err(
                ApplicationError::invalid_transition(session_id, lifecycle, "wait for the source"),
            );
        }
        let mut next = self.snapshot.clone();
        next.lifecycle = SessionLifecycle::Waiting;
        next.health = RuntimeHealth::recovering(message);
        Ok(self.publish(next))
    }

    pub fn update_health(
        &mut self,
        session_id: SessionId,
        level: SessionHealthLevel,
        message: Option<String>,
    ) -> (result: Result<RuntimeSnapshot, ApplicationError>)
        requires
            old(self).wf(),
            admits(*old(self), session_id) ==> can_publish(*old(self)),
        ensures
            final(self).wf(),
            health_rel(*old(self), session_id, level, message, *final(self), result),
    {
        if let Err(refused) = self.require_session(session_id) {
            return Err(refused);
        }
        let lifecycle = self.snapshot.lifecycle;
        if !(lifecycle == SessionLifecycle::Running || lifecycle == SessionLifecycle::Waiting) {
            return Err(
                ApplicationError::invalid_transition(session_id, lifecycle, "update runtime health"),
            );
        }
        let mut next = self.snapshot.clone();
        next.health = RuntimeHealth {
            level,
            progress: if lifecycle == SessionLifecycle::Waiting {
                SessionProgress::WaitingForSource
            } else {
                SessionProgress::Live
            },
            message,
        };
        Ok(self.publish(next))
    }

    /// Stop is idempotent once stopping has begun. This lets every UI surface
    /// acknowledge one physical click without racing a second state owner.
    pub fn request_stop(&mut self, expected_session: Option<SessionId>) -> (result: Result<
        StopPermit,
        ApplicationError,
    >)
        requires
            old(self).wf(),
            stop_publishes(*old(self), expected_session) ==> can_publish(*old(self)),
        ensures
            final(self).wf(),
            stop_rel(*old(self), expected_session, *final(self), result),
    {
        let (session_id, cancellation) = match &mut self.active {
            None => {
                return Err(ApplicationError::no_active_session());
            },
            Some(active) => {
                if let Some(expected) = expected_session {
                    if expected != active.id {
                        return Err(ApplicationError::stale_session(expected, active.id));
                    }
                }
                active.cancellation.cancel();
                active.cancelled = true;
                (active.id, active.cancellation.clone())
            },
        };
        if self.snapshot.lifecycle == SessionLifecycle::Stopping {
            return Ok(
                StopPermit {
                    session_id,
                    cancellation,
                    already_stopping: true,
                    snapshot: self.snapshot.clone(),
                },
            );
        }
        let mut next = self.snapshot.clone();
        next.lifecycle = SessionLifecycle::Stopping;
        next.health = RuntimeHealth::healthy(SessionProgress::Stopping, None);
        let snapshot = self.publish(next);
        Ok(StopPermit { session_id, cancellation, already_stopping: false, snapshot })
    }

    pub fn request_stop_for_mode(&mut self, expected_mode: SessionMode) -> (result: Result<
        StopPermit,
        ApplicationError,
    >)
        requires
            old(self).wf(),
            old(self).active_session() is Some && old(self).current().mode == Some(expected_mode)
                && old(self).current().lifecycle != SessionLifecycle::Stopping ==> can_publish(*old(self)),
        ensures
            final(self).wf(),
            stop_for_mode_rel(*old(self), expected_mode, *final(self), result),
    {
        let active_id = match &self.active {
            None => {
                return Err(ApplicationError::no_active_session());
            },
            Some(active) => active.id,
        };
        if self.snapshot.mode != Some(expected_mode) {
            return Err(
                ApplicationError::new(
                    ApplicationErrorCode::SessionConflict,
                    "A different Prollyglot session owns the runtime.",
                    ErrorRecoverability::UserActionRequired,
                    RecoveryAction::StopAndRetry,
                ).for_session(active_id),
            );
        }
        self.request_stop(Some(active_id))
    }

    pub fn register_worker(
        &mut self,
        session_id: SessionId,
        role: WorkerRole,
        lifetime: WorkerLifetime,
    ) -> (result: Result<WorkerReporter, ApplicationError>)
        requires
            old(self).wf(),
        ensures
            final(self).wf(),
            register_rel(*old(self), session_id, role, lifetime, *final(self), result),
    {
        broadcast use vstd::laws_cmp::group_laws_cmp, vstd::std_specs::btree::group_btree_axioms;

        if let Err(refused) = self.require_session(session_id) {
            return Err(refused);
        }
        let worker_id = self.next_worker_id;
        if worker_id == u64::MAX {
            return Err(
                ApplicationError::new(
                    ApplicationErrorCode::Internal,
                    "The worker identifier space was exhausted.",
                    ErrorRecoverability::RestartRequired,
                    RecoveryAction::RestartApplication,
                ).for_session(session_id),
            );
        }
        self.next_worker_id = worker_id + 1;
        match &mut self.active {
            Some(active) => {
                active.workers.insert(worker_id, WorkerRegistration { role, lifetime });
            },
            None => {},
        }
        Ok(WorkerReporter { session_id, worker_id })
    }

    /// Signals that platform resources have been stopped and joined. The
    /// session reaches `Stopped` only after every registered worker has also
    /// reported a terminal outcome.
    pub fn finish_cleanup(&mut self, session_id: SessionId, result: Result<(), ApplicationError>) -> (outcome: Result<
        Option<RuntimeSnapshot>,
        ApplicationError,
    >)
        requires
            old(self).wf(),
            admits(*old(self), session_id) ==> can_publish(*old(self)),
        ensures
            final(self).wf(),
            cleanup_rel(*old(self), session_id, result, *final(self), outcome),
    {
        if let Err(refused) = self.require_session(session_id) {
            return Err(refused);
        }
        match &mut self.active {
            Some(active) => {
                active.cleanup_finished = true;
            },
            None => {},
        }
        if let Err(error) = result {
            let mut error = error;
            if error.session_id.is_none() {
                error.session_id = Some(session_id);
            }
            let snapshot = match self.fail_session(session_id, error) {
                Ok(snapshot) => snapshot,
                Err(refused) => {
                    return Err(refused);
                },
            };
            let _ = self.try_finalize_cleanup();
            return Ok(Some(snapshot));
        }
        Ok(self.try_finalize_cleanup())
    }

    pub fn fail(&mut self, session_id: SessionId, error: ApplicationError) -> (result: Result<
        RuntimeSnapshot,
        ApplicationError,
    >)
        requires
            old(self).wf(),
            admits(*old(self), session_id) ==> can_publish(*old(self)),
        ensures
            final(self).wf(),
            fail_rel(*old(self), session_id, owned_by(error, session_id), *final(self), result),
    {
        let mut error = error;
        if error.session_id.is_none() {
            error.session_id = Some(session_id);
        }
        self.fail_session(session_id, error)
    }

    pub fn shutdown_timed_out(&mut self, session_id: SessionId) -> (result: Result<
        RuntimeSnapshot,
        ApplicationError,
    >)
        requires
            old(self).wf(),
            admits(*old(self), session_id) ==> can_publish(*old(self)),
        ensures
            final(self).wf(),
            exists|error: ApplicationError|
                shutdown_timed_out_error(error, session_id) && #[trigger] fail_rel(
                    *old(self),
                    session_id,
                    error,
                    *final(self),
                    result,
                ),
    {
        let error = ApplicationError::shutdown_timed_out(session_id);
        let ghost reported = error;
        let result = self.fail_session(session_id, error);
        assert(fail_rel(*old(self), session_id, reported, *self, result));
        result
    }
}

} // verus!
