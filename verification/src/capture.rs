//! The audio capture session as the adapter runs it: the capture status it
//! publishes, the hand-off of frames to transcription, and the decisions it
//! takes on each capture event.

use vstd::prelude::*;
use vstd::string::*;

use crate::contracts::{
    capture_state_for, capture_state_spec, clone_text, error_is, ApplicationError,
    ApplicationErrorCode, CaptureState, ErrorRecoverability, RecoveryAction, RuntimeSnapshot,
    SessionHealthLevel, SessionId, SessionLifecycle,
};
use crate::text::{decimal, decimal_string};
use crate::visual_status::snapshot_message;

verus! {

#[verifier::external_type_specification]
#[verifier::external_body]
#[verifier::reject_recursive_types(T)]
pub struct ExSender<T>(crossbeam_channel::Sender<T>);

#[verifier::external_type_specification]
#[verifier::external_body]
#[verifier::reject_recursive_types(T)]
pub struct ExReceiver<T>(crossbeam_channel::Receiver<T>);

/// What one attempt to send without blocking gave.
pub enum SendAttempt<T> {
    Sent,
    Full(T),
    Disconnected(T),
}

/// `crossbeam_channel::Sender::try_send`: the message is queued, or handed
/// back unchanged because the channel is full or has no receiver left.
/// Which of these happens depends on the other threads.
#[verifier::external_body]
pub(crate) fn try_send<T>(sender: &crossbeam_channel::Sender<T>, message: T) -> (attempt: SendAttempt<T>)
    ensures
        attempt matches SendAttempt::Full(back) ==> back == message,
        attempt matches SendAttempt::Disconnected(back) ==> back == message,
{
    match sender.try_send(message) {
        Ok(()) => SendAttempt::Sent,
        Err(crossbeam_channel::TrySendError::Full(back)) => SendAttempt::Full(back),
        Err(crossbeam_channel::TrySendError::Disconnected(back)) => SendAttempt::Disconnected(back),
    }
}

/// `crossbeam_channel::Receiver::try_recv`, discarding the message: whether
/// one was waiting. That depends on the other threads.
#[verifier::external_body]
fn try_discard<T>(receiver: &crossbeam_channel::Receiver<T>) -> (discarded: bool) {
    receiver.try_recv().is_ok()
}

#[derive(Clone, Copy, Debug, PartialEq, Eq, Structural)]
pub enum AudioQueueResult {
    Queued { dropped: u64 },
    Disconnected,
}

/// The outcome of queueing a frame for transcription, given what the first
/// send attempt gave, how many stale frames were discarded after a full
/// queue, and what the second attempt gave.
pub open spec fn queue_outcome_spec(first_sent: bool, first_full: bool, discarded: u64, second_sent: bool, second_full: bool) -> AudioQueueResult {
    if first_sent {
        AudioQueueResult::Queued { dropped: 0 }
    } else if !first_full {
        AudioQueueResult::Disconnected
    } else if second_sent {
        AudioQueueResult::Queued { dropped: discarded }
    } else if second_full {
        AudioQueueResult::Queued {
            dropped: if discarded == u64::MAX { u64::MAX } else { (discarded + 1) as u64 },
        }
    } else {
        AudioQueueResult::Disconnected
    }
}

/// Hands `frame` to transcription through a bounded queue that keeps the
/// newest audio: when the queue is full, every stale frame waiting in it is
/// discarded through `overflow_receiver` and the frame is offered again.
/// Reports how many frames were lost, or that transcription stopped
/// accepting audio. What the queue holds depends on the transcription
/// thread, so the counts are stated by `queue_outcome_spec` over what the
/// attempts gave.
pub fn queue_latest_audio<T>(
    sender: &crossbeam_channel::Sender<T>,
    overflow_receiver: &crossbeam_channel::Receiver<T>,
    frame: T,
) -> (result: AudioQueueResult) {
    let frame = match try_send(sender, frame) {
        SendAttempt::Sent => return queue_outcome(true, false, 0, false, false),
        SendAttempt::Disconnected(_) => return queue_outcome(false, false, 0, false, false),
        SendAttempt::Full(frame) => frame,
    };
    let mut discarded: u64 = 0;
    loop
        decreases u64::MAX - discarded,
    {
        if !try_discard(overflow_receiver) {
            break;
        }
        if discarded == u64::MAX {
            break;
        }
        discarded = discarded + 1;
    }
    match try_send(sender, frame) {
        SendAttempt::Sent => queue_outcome(false, true, discarded, true, false),
        SendAttempt::Full(_) => queue_outcome(false, true, discarded, false, true),
        SendAttempt::Disconnected(_) => queue_outcome(false, true, discarded, false, false),
    }
}

/// The outcome of queueing a frame, from what the attempts gave.
pub fn queue_outcome(first_sent: bool, first_full: bool, discarded: u64, second_sent: bool, second_full: bool) -> (result: AudioQueueResult)
    ensures
        result == queue_outcome_spec(first_sent, first_full, discarded, second_sent, second_full),
{
    if first_sent {
        AudioQueueResult::Queued { dropped: 0 }
    } else if !first_full {
        AudioQueueResult::Disconnected
    } else if second_sent {
        AudioQueueResult::Queued { dropped: discarded }
    } else if second_full {
        AudioQueueResult::Queued { dropped: discarded.saturating_add(1) }
    } else {
        AudioQueueResult::Disconnected
    }
}

/// The capture status that the compatibility view shows, apart from the
/// audio peak level, which the caller keeps beside it.
#[derive(Debug, PartialEq, Eq)]
pub struct CaptureProjection {
    pub state: CaptureState,
    pub dropped_frames: u64,
    pub source_label: Option<String>,
    pub message: Option<String>,
}

impl Clone for CaptureProjection {
    fn clone(&self) -> (copy: Self)
        ensures
            copy == *self,
    {
        CaptureProjection {
            state: self.state,
            dropped_frames: self.dropped_frames,
            source_label: clone_text(&self.source_label),
            message: clone_text(&self.message),
        }
    }
}

/// Whether a capture in `state` keeps showing the last audio peak; in any
/// other state the peak shows zero.
pub open spec fn keeps_peak_spec(state: CaptureState) -> bool {
    state == CaptureState::Capturing || state == CaptureState::Waiting
}

pub fn keeps_peak(state: CaptureState) -> (kept: bool)
    ensures
        kept == keeps_peak_spec(state),
{
    state == CaptureState::Capturing || state == CaptureState::Waiting
}

/// The level meter keeps the last audio peak exactly while audio flows or
/// is expected back: while the session runs or waits for its source. While
/// it starts, stops, has stopped or has failed, the meter shows zero.
pub proof fn the_level_meter_follows_flowing_audio(current: CaptureProjection, snapshot: RuntimeSnapshot)
    ensures
        keeps_peak_spec(projected_capture_spec(current, snapshot).state) <==> (snapshot.lifecycle
            == SessionLifecycle::Running || snapshot.lifecycle == SessionLifecycle::Waiting),
        keeps_peak_spec(CaptureState::Capturing),
        keeps_peak_spec(CaptureState::Waiting),
        !keeps_peak_spec(CaptureState::Starting),
        !keeps_peak_spec(CaptureState::Stopping),
        !keeps_peak_spec(CaptureState::Stopped),
        !keeps_peak_spec(CaptureState::Failed),
{
}

/// The capture status that `snapshot` shows, given the current one: only a
/// projection of the runtime lifecycle, which keeps the dropped-frame count
/// until the session stops.
pub open spec fn projected_capture_spec(current: CaptureProjection, snapshot: RuntimeSnapshot) -> CaptureProjection {
    let state = capture_state_spec(snapshot.lifecycle);
    let stopped = state == CaptureState::Stopped;
    CaptureProjection {
        state,
        dropped_frames: if stopped {
            0
        } else {
            current.dropped_frames
        },
        source_label: if stopped {
            None
        } else {
            match snapshot.source {
                Some(source) => Some(source.label),
                None => None,
            }
        },
        message: snapshot_message(snapshot),
    }
}

pub fn projected_capture(current: &CaptureProjection, snapshot: &RuntimeSnapshot) -> (next: CaptureProjection)
    ensures
        next == projected_capture_spec(*current, *snapshot),
{
    let state = capture_state_for(snapshot.lifecycle);
    let stopped = state == CaptureState::Stopped;
    CaptureProjection {
        state,
        dropped_frames: if stopped {
            0
        } else {
            current.dropped_frames
        },
        source_label: if stopped {
            None
        } else {
            match &snapshot.source {
                Some(source) => Some(source.label.clone()),
                None => None,
            }
        },
        message: match &snapshot.failure {
            Some(failure) => Some(failure.message.clone()),
            None => clone_text(&snapshot.health.message),
        },
    }
}

/// The capture status last published, with the runtime revision it shows.
#[derive(Debug)]
pub struct PublishedAudioStatus {
    pub runtime_revision: u32,
    pub capture: CaptureProjection,
}

impl Default for PublishedAudioStatus {
    fn default() -> (status: Self)
        ensures
            status.runtime_revision == 0,
            status.capture.state == CaptureState::Stopped,
            status.capture.dropped_frames == 0,
            status.capture.source_label is None,
            status.capture.message is None,
    {
        PublishedAudioStatus {
            runtime_revision: 0,
            capture: CaptureProjection {
                state: CaptureState::Stopped,
                dropped_frames: 0,
                source_label: None,
                message: None,
            },
        }
    }
}

impl PublishedAudioStatus {
    /// Applies a runtime snapshot newer than the last one applied and
    /// returns the status to publish; an older or repeated snapshot cannot
    /// regress the status and is ignored.
    pub fn apply_snapshot(&mut self, snapshot: &RuntimeSnapshot) -> (next: Option<CaptureProjection>)
        ensures
            snapshot.revision <= old(self).runtime_revision ==> next is None && *final(self) == *old(
                self,
            ),
            snapshot.revision > old(self).runtime_revision ==> next == Some(
                projected_capture_spec(old(self).capture, *snapshot),
            ) && final(self).capture == projected_capture_spec(old(self).capture, *snapshot)
                && final(self).runtime_revision == snapshot.revision,
    {
        if snapshot.revision <= self.runtime_revision {
            return None;
        }
        let next = projected_capture(&self.capture, snapshot);
        self.runtime_revision = snapshot.revision;
        self.capture = next.clone();
        Some(next)
    }

    /// Records a new dropped-frame count against `snapshot`, the runtime's
    /// current state, when the published status already shows that revision.
    pub fn record_metrics(&mut self, snapshot: &RuntimeSnapshot, dropped_frames: u64) -> (next: Option<CaptureProjection>)
        ensures
            snapshot.revision != old(self).runtime_revision ==> next is None && *final(self) == *old(
                self,
            ),
            snapshot.revision == old(self).runtime_revision ==> {
                let projected = projected_capture_spec(old(self).capture, *snapshot);
                let shown = CaptureProjection { dropped_frames, ..projected };
                &&& next == Some(shown)
                &&& final(self).capture == shown
                &&& final(self).runtime_revision == old(self).runtime_revision
            },
    {
        if snapshot.revision != self.runtime_revision {
            return None;
        }
        let mut next = projected_capture(&self.capture, snapshot);
        next.dropped_frames = dropped_frames;
        self.capture = next.clone();
        Some(next)
    }
}

/// The most frames waiting for transcription at which a fallen-behind queue
/// counts as caught up.
pub const INFERENCE_QUEUE_RECOVERY_DEPTH: usize = 32;

/// How long, in milliseconds, transcription must go without losing audio
/// before its health is restored.
pub const INFERENCE_BACKLOG_RECOVERY_GRACE_MILLIS: u64 = 2000;

/// The least time, in milliseconds, between two warnings about lost audio.
pub const DROP_WARNING_INTERVAL_MILLIS: u64 = 1000;

/// The least time, in milliseconds, between two peak-level updates.
pub const PEAK_PUBLISH_INTERVAL_MILLIS: u64 = 50;

/// The time since `since`, held at zero should the clock go back.
pub open spec fn elapsed_spec(now: u64, since: u64) -> u64 {
    if now >= since { (now - since) as u64 } else { 0 }
}

/// What to do after one capture state change reported by the backend.
#[derive(Debug)]
pub enum StateDecision {
    /// Nothing changes.
    Ignore,
    /// The session resumes running if it was waiting.
    Resume,
    /// The session waits for its source, with this message.
    Wait(String),
    /// Forwarding ends without an error.
    Finish,
    /// Forwarding ends with this failure.
    Fail(ApplicationError),
}

/// What to do after queueing one frame for transcription.
#[derive(Debug)]
pub struct FrameDecision {
    /// A health change to publish: its level and message.
    pub health: Option<(SessionHealthLevel, Option<String>)>,
    /// The total of lost frames to publish with the frame's peak, when it
    /// is time to publish one.
    pub metrics: Option<u64>,
}

/// The bookkeeping of the thread that forwards capture events: how much
/// audio was lost on either side and when the adapter last said so.
/// Times are milliseconds on a monotonic clock.
pub struct AudioEventForwarding {
    pub session_id: SessionId,
    pub last_peak_publish: Option<u64>,
    pub last_drop_publish: Option<u64>,
    pub inference_backlog_started: Option<u64>,
    pub last_inference_drop: Option<u64>,
    pub capture_dropped: u64,
    pub inference_dropped: u64,
}

/// A health change, by level and message text.
pub open spec fn health_view(health: Option<(SessionHealthLevel, Option<String>)>) -> Option<(SessionHealthLevel, Option<Seq<char>>)> {
    match health {
        Some((level, Some(message))) => Some((level, Some(message@))),
        Some((level, None)) => Some((level, None)),
        None => None,
    }
}

pub open spec fn saturating_sum(a: u64, b: u64) -> u64 {
    if a + b > u64::MAX { u64::MAX } else { (a + b) as u64 }
}

fn elapsed(now: u64, since: u64) -> (millis: u64)
    ensures
        millis == elapsed_spec(now, since),
{
    now.saturating_sub(since)
}

impl AudioEventForwarding {
    pub fn new(session_id: SessionId) -> (forwarding: Self)
        ensures
            forwarding.session_id == session_id,
            forwarding.last_peak_publish is None,
            forwarding.last_drop_publish is None,
            forwarding.inference_backlog_started is None,
            forwarding.last_inference_drop is None,
            forwarding.capture_dropped == 0,
            forwarding.inference_dropped == 0,
    {
        AudioEventForwarding {
            session_id,
            last_peak_publish: None,
            last_drop_publish: None,
            inference_backlog_started: None,
            last_inference_drop: None,
            capture_dropped: 0,
            inference_dropped: 0,
        }
    }

    /// The decision for a capture state change; `cancelled` tells whether
    /// the session's stop was requested.
    pub fn on_state(&self, state: CaptureState, cancelled: bool) -> (decision: StateDecision)
        ensures
            match state {
                CaptureState::Starting => decision is Ignore,
                CaptureState::Capturing => decision is Resume,
                CaptureState::Waiting => decision matches StateDecision::Wait(message) && message@
                    == "The selected audio source is temporarily unavailable."@,
                CaptureState::Stopping | CaptureState::Stopped => if cancelled {
                    decision is Finish
                } else {
                    decision matches StateDecision::Fail(error) && error_is(
                        error,
                        ApplicationErrorCode::CaptureFailed,
                        "The audio capture session stopped unexpectedly."@,
                        ErrorRecoverability::Retryable,
                        RecoveryAction::StopAndRetry,
                        Some(self.session_id),
                    )
                },
                CaptureState::Failed => decision matches StateDecision::Fail(error) && error_is(
                    error,
                    ApplicationErrorCode::CaptureFailed,
                    "The audio capture worker reported a failure."@,
                    ErrorRecoverability::Retryable,
                    RecoveryAction::ChooseAnotherSource,
                    Some(self.session_id),
                ),
            },
    {
        match state {
            CaptureState::Starting => StateDecision::Ignore,
            CaptureState::Capturing => StateDecision::Resume,
            CaptureState::Waiting => StateDecision::Wait(
                String::from_str("The selected audio source is temporarily unavailable."),
            ),
            CaptureState::Stopping | CaptureState::Stopped => if cancelled {
                StateDecision::Finish
            } else {
                StateDecision::Fail(
                    ApplicationError::new(
                        ApplicationErrorCode::CaptureFailed,
                        "The audio capture session stopped unexpectedly.",
                        ErrorRecoverability::Retryable,
                        RecoveryAction::StopAndRetry,
                    ).for_session(self.session_id),
                )
            },
            CaptureState::Failed => StateDecision::Fail(
                ApplicationError::new(
                    ApplicationErrorCode::CaptureFailed,
                    "The audio capture worker reported a failure.",
                    ErrorRecoverability::Retryable,
                    RecoveryAction::ChooseAnotherSource,
                ).for_session(self.session_id),
            ),
        }
    }

    /// The failure for an error that the capture backend reported.
    pub fn on_error(&self, message: &str) -> (error: ApplicationError)
        ensures
            error_is(
                error,
                ApplicationErrorCode::CaptureFailed,
                message@,
                ErrorRecoverability::Retryable,
                RecoveryAction::ChooseAnotherSource,
                Some(self.session_id),
            ),
    {
        ApplicationError::new(
            ApplicationErrorCode::CaptureFailed,
            message,
            ErrorRecoverability::Retryable,
            RecoveryAction::ChooseAnotherSource,
        ).for_session(self.session_id)
    }

    /// Takes in the backend's count of frames it dropped, and returns the
    /// warning to publish with the total of lost frames.
    pub fn on_frames_dropped(&mut self, total: u64) -> (warning: (String, u64))
        ensures
            *final(self) == (AudioEventForwarding { capture_dropped: total, ..*old(self) }),
            warning.0@ == "Audio processing fell behind; "@ + decimal(total as nat)
                + " packets were dropped."@,
            warning.1 == saturating_sum(total, old(self).inference_dropped),
    {
        self.capture_dropped = total;
        let mut message = String::from_str("Audio processing fell behind; ");
        message.append(decimal_string(total).as_str());
        message.append(" packets were dropped.");
        (message, total.saturating_add(self.inference_dropped))
    }

    /// Takes in what queueing a frame for transcription gave, with the
    /// queue's depth afterwards and the time, and says which health change
    /// and metrics to publish; or the failure when transcription stopped
    /// accepting audio.
    pub fn on_frame_queued(&mut self, queued: AudioQueueResult, queue_depth: usize, now: u64) -> (result: Result<FrameDecision, ApplicationError>)
        ensures
            queued is Disconnected ==> *final(self) == *old(self),
            queued is Disconnected ==> (result matches Err(error) && error_is(
                error,
                ApplicationErrorCode::WorkerExited,
                "The transcription worker stopped accepting audio."@,
                ErrorRecoverability::Retryable,
                RecoveryAction::StopAndRetry,
                Some(old(self).session_id),
            )),
            queued matches AudioQueueResult::Queued { dropped } ==> result matches Ok(decision) && {
                let total = saturating_sum(old(self).inference_dropped, dropped);
                let warn = dropped > 0 && match old(self).last_drop_publish {
                    None => true,
                    Some(last) => elapsed_spec(now, last) >= DROP_WARNING_INTERVAL_MILLIS,
                };
                let recovered = dropped == 0 && queue_depth <= INFERENCE_QUEUE_RECOVERY_DEPTH
                    && match old(self).last_inference_drop {
                    None => false,
                    Some(last) => elapsed_spec(now, last) >= INFERENCE_BACKLOG_RECOVERY_GRACE_MILLIS,
                };
                let publish = match old(self).last_peak_publish {
                    None => true,
                    Some(last) => elapsed_spec(now, last) >= PEAK_PUBLISH_INTERVAL_MILLIS,
                };
                &&& final(self).session_id == old(self).session_id
                &&& final(self).capture_dropped == old(self).capture_dropped
                &&& final(self).inference_dropped == total
                &&& final(self).inference_backlog_started == if dropped > 0 {
                    match old(self).inference_backlog_started {
                        Some(started) => Some(started),
                        None => Some(now),
                    }
                } else if recovered {
                    None
                } else {
                    old(self).inference_backlog_started
                }
                &&& final(self).last_inference_drop == if dropped > 0 {
                    Some(now)
                } else if recovered {
                    None
                } else {
                    old(self).last_inference_drop
                }
                &&& final(self).last_drop_publish == if warn {
                    Some(now)
                } else if recovered {
                    None
                } else {
                    old(self).last_drop_publish
                }
                &&& final(self).last_peak_publish == if publish {
                    Some(now)
                } else {
                    old(self).last_peak_publish
                }
                &&& health_view(decision.health) == if warn {
                    Some(
                        (
                            SessionHealthLevel::Degraded,
                            Some(
                                "Transcription fell behind; "@ + decimal(total as nat)
                                    + " old audio packets were skipped to stay live."@,
                            ),
                        ),
                    )
                } else if recovered {
                    Some((SessionHealthLevel::Healthy, None::<Seq<char>>))
                } else {
                    None
                }
                &&& decision.metrics == if publish {
                    Some(saturating_sum(old(self).capture_dropped, total))
                } else {
                    None
                }
            },
    {
        let dropped = match queued {
            AudioQueueResult::Disconnected => {
                return Err(
                    ApplicationError::new(
                        ApplicationErrorCode::WorkerExited,
                        "The transcription worker stopped accepting audio.",
                        ErrorRecoverability::Retryable,
                        RecoveryAction::StopAndRetry,
                    ).for_session(self.session_id),
                );
            },
            AudioQueueResult::Queued { dropped } => dropped,
        };
        let mut health: Option<(SessionHealthLevel, Option<String>)> = None;
        if dropped > 0 {
            self.inference_dropped = self.inference_dropped.saturating_add(dropped);
            if self.inference_backlog_started.is_none() {
                self.inference_backlog_started = Some(now);
            }
            self.last_inference_drop = Some(now);
            let warn = match self.last_drop_publish {
                None => true,
                Some(last) => elapsed(now, last) >= DROP_WARNING_INTERVAL_MILLIS,
            };
            if warn {
                let mut message = String::from_str("Transcription fell behind; ");
                message.append(decimal_string(self.inference_dropped).as_str());
                message.append(" old audio packets were skipped to stay live.");
                health = Some((SessionHealthLevel::Degraded, Some(message)));
                self.last_drop_publish = Some(now);
            }
        } else {
            let recovered = queue_depth <= INFERENCE_QUEUE_RECOVERY_DEPTH && match self.last_inference_drop {
                None => false,
                Some(last) => elapsed(now, last) >= INFERENCE_BACKLOG_RECOVERY_GRACE_MILLIS,
            };
            if recovered {
                self.inference_backlog_started = None;
                self.last_inference_drop = None;
                self.last_drop_publish = None;
                health = Some((SessionHealthLevel::Healthy, None));
            }
        }
        let publish = match self.last_peak_publish {
            None => true,
            Some(last) => elapsed(now, last) >= PEAK_PUBLISH_INTERVAL_MILLIS,
        };
        let metrics = if publish {
            self.last_peak_publish = Some(now);
            Some(self.capture_dropped.saturating_add(self.inference_dropped))
        } else {
            None
        };
        Ok(FrameDecision { health, metrics })
    }
}

} // verus!
