//! The visual capture as the adapter follows it: the source that was
//! picked, the events its capture reports, and what each event decides.

use vstd::prelude::*;
use vstd::string::*;

use crate::contracts::{RuntimeSnapshot, SessionId, SessionLifecycle};
use crate::geometry::PortalGeometry;

verus! {

#[derive(Clone, Debug)]
pub struct PickedVisualSource {
    pub label: String,
    /// Physical desktop coordinates where the platform reports them.
    pub x: i32,
    pub y: i32,
    pub width: u32,
    pub height: u32,
    /// The screen-cast geometry, for a portal capture.
    pub portal: Option<PortalGeometry>,
}

pub enum VisualCaptureEvent {
    Started(PickedVisualSource),
    Frame { x: i32, y: i32, width: u32, height: u32, replaced_frames: u64 },
    SourceClosed,
    Failed(String),
}

#[derive(Debug, PartialEq, Eq)]
pub enum StartError {
    Cancelled,
    Failed(String),
}

/// The least time, in milliseconds, between two capture-counter updates.
pub const VISUAL_STATUS_INTERVAL_MILLIS: u64 = 500;

/// Whether events of session `session_id` still matter: the session is the
/// current one and has not begun to stop.
pub open spec fn follows_session(snapshot: RuntimeSnapshot, session_id: SessionId) -> bool {
    snapshot.session_id == Some(session_id) && !(snapshot.lifecycle == SessionLifecycle::Stopping
        || snapshot.lifecycle == SessionLifecycle::Failed || snapshot.lifecycle
        == SessionLifecycle::Stopped)
}

pub fn follows(snapshot: &RuntimeSnapshot, session_id: SessionId) -> (follow: bool)
    ensures
        follow == follows_session(*snapshot, session_id),
{
    snapshot.session_id == Some(session_id) && !(snapshot.lifecycle == SessionLifecycle::Stopping
        || snapshot.lifecycle == SessionLifecycle::Failed || snapshot.lifecycle
        == SessionLifecycle::Stopped)
}

/// What follows a frame event.
#[derive(Debug, PartialEq, Eq)]
pub struct FrameFollowUp {
    /// Whether the source moved or resized, so the overlay must follow it.
    pub geometry_changed: bool,
    /// The replaced-frame count to publish, when it is time to.
    pub publish_replaced: Option<u64>,
}

/// The bookkeeping of the thread that follows a visual capture's events.
/// Times are milliseconds on a monotonic clock.
pub struct VisualEventTracking {
    pub session_id: SessionId,
    pub source_closed: bool,
    pub last_status_publish: Option<u64>,
    pub x: i32,
    pub y: i32,
    pub width: u32,
    pub height: u32,
}

impl VisualEventTracking {
    pub fn new(session_id: SessionId, source: &PickedVisualSource) -> (tracking: Self)
        ensures
            tracking.session_id == session_id,
            !tracking.source_closed,
            tracking.last_status_publish is None,
            tracking.x == source.x && tracking.y == source.y,
            tracking.width == source.width && tracking.height == source.height,
    {
        VisualEventTracking {
            session_id,
            source_closed: false,
            last_status_publish: None,
            x: source.x,
            y: source.y,
            width: source.width,
            height: source.height,
        }
    }

    /// The capture's event channel closed. The first time, while the session
    /// is not already waiting, the session waits with the returned message;
    /// otherwise nothing more happens.
    pub fn on_disconnected(&mut self, waiting: bool) -> (wait: Option<String>)
        ensures
            (old(self).source_closed || waiting) ==> wait is None && *final(self) == *old(self),
            !(old(self).source_closed || waiting) ==> (wait matches Some(message) && message@
                == "The selected visual source is no longer available. Stop visual translation or choose another source."@)
                && *final(self) == (VisualEventTracking { source_closed: true, ..*old(self) }),
    {
        if self.source_closed || waiting {
            return None;
        }
        self.source_closed = true;
        Some(
            String::from_str(
                "The selected visual source is no longer available. Stop visual translation or choose another source.",
            ),
        )
    }

    /// The capture (re)started on `source`: the source is open again and
    /// its geometry is followed from now on.
    pub fn on_started(&mut self, source: &PickedVisualSource)
        ensures
            *final(self) == (VisualEventTracking {
                source_closed: false,
                x: source.x,
                y: source.y,
                width: source.width,
                height: source.height,
                ..*old(self)
            }),
    {
        self.source_closed = false;
        self.x = source.x;
        self.y = source.y;
        self.width = source.width;
        self.height = source.height;
    }

    /// A frame arrived with the source's current geometry.
    pub fn on_frame(&mut self, x: i32, y: i32, width: u32, height: u32, replaced_frames: u64, now: u64) -> (follow_up: FrameFollowUp)
        ensures
            ({
                let changed = old(self).x != x || old(self).y != y || old(self).width != width
                    || old(self).height != height;
                let due = changed || match old(self).last_status_publish {
                    None => true,
                    Some(last) => now >= last && now - last >= VISUAL_STATUS_INTERVAL_MILLIS,
                };
                &&& follow_up.geometry_changed == changed
                &&& follow_up.publish_replaced == if due {
                    Some(replaced_frames)
                } else {
                    None
                }
                &&& *final(self) == (VisualEventTracking {
                    source_closed: false,
                    x,
                    y,
                    width,
                    height,
                    last_status_publish: if due {
                        Some(now)
                    } else {
                        old(self).last_status_publish
                    },
                    ..*old(self)
                })
            }),
    {
        self.source_closed = false;
        let changed = self.x != x || self.y != y || self.width != width || self.height != height;
        self.x = x;
        self.y = y;
        self.width = width;
        self.height = height;
        let due = changed || match self.last_status_publish {
            None => true,
            Some(last) => now >= last && now - last >= VISUAL_STATUS_INTERVAL_MILLIS,
        };
        if due {
            self.last_status_publish = Some(now);
        }
        FrameFollowUp { geometry_changed: changed, publish_replaced: if due { Some(replaced_frames) } else { None } }
    }

    /// The source closed: the session waits with the returned message.
    pub fn on_source_closed(&mut self) -> (message: String)
        ensures
            message@
                == "The selected visual source closed. Stop visual translation or choose another source."@,
            *final(self) == (VisualEventTracking { source_closed: true, ..*old(self) }),
    {
        self.source_closed = true;
        String::from_str(
            "The selected visual source closed. Stop visual translation or choose another source.",
        )
    }
}

/// The longest, in microseconds, a recognition result may lag behind the
/// newest frame while the source keeps changing before it is thrown away.
pub const MAX_VISUAL_RESULT_AGE_MICROS: u64 = 1500000;

/// How far, in microseconds, the frame a result was read from lags behind
/// the newest frame waiting, if one is.
pub open spec fn result_age_spec(frame_at_micros: u64, newest_at_micros: Option<u64>) -> u64 {
    match newest_at_micros {
        Some(newest) => if newest >= frame_at_micros { (newest - frame_at_micros) as u64 } else { 0 },
        None => 0,
    }
}

pub fn result_age_micros(frame_at_micros: u64, newest_at_micros: Option<u64>) -> (age: u64)
    ensures
        age == result_age_spec(frame_at_micros, newest_at_micros),
{
    match newest_at_micros {
        Some(newest) => newest.saturating_sub(frame_at_micros),
        None => 0,
    }
}

/// What the recognition worker does with the outcome of one pass.
#[derive(Clone, Copy, Debug, PartialEq, Eq, Structural)]
pub enum RecognitionAction {
    /// The session ended or moved on: the worker stops.
    Stop,
    /// The result is too old for a source that changed: clear the shown
    /// text and start tracking text afresh.
    DiscardStale,
    /// Publish the recognized text.
    Publish,
    /// Nothing to show now.
    Hold,
}

/// The action after a pass that produced a text update or not, whose result
/// is `age_micros` old, while the newest frame shows a source that changed
/// substantially or not, and the supervisor shows `snapshot`. Nothing is
/// shown while the session waits for its source.
pub open spec fn recognition_action_spec(
    snapshot: RuntimeSnapshot,
    session_id: SessionId,
    has_update: bool,
    age_micros: u64,
    source_changed: bool,
) -> RecognitionAction {
    let stale = has_update && age_micros > MAX_VISUAL_RESULT_AGE_MICROS && source_changed;
    if !follows_session(snapshot, session_id) {
        RecognitionAction::Stop
    } else if snapshot.lifecycle == SessionLifecycle::Waiting || !has_update {
        RecognitionAction::Hold
    } else if stale {
        RecognitionAction::DiscardStale
    } else {
        RecognitionAction::Publish
    }
}

pub fn recognition_action(
    snapshot: &RuntimeSnapshot,
    session_id: SessionId,
    has_update: bool,
    age_micros: u64,
    source_changed: bool,
) -> (action: RecognitionAction)
    ensures
        action == recognition_action_spec(*snapshot, session_id, has_update, age_micros, source_changed),
{
    let stale = has_update && age_micros > MAX_VISUAL_RESULT_AGE_MICROS && source_changed;
    if !follows(snapshot, session_id) {
        RecognitionAction::Stop
    } else if snapshot.lifecycle == SessionLifecycle::Waiting || !has_update {
        RecognitionAction::Hold
    } else if stale {
        RecognitionAction::DiscardStale
    } else {
        RecognitionAction::Publish
    }
}

/// The health message while the selected source sends no frames.
pub fn frames_lost_message() -> (message: String)
    ensures
        message@
            == "The selected visual source is no longer providing frames. Stop visual translation or choose another source."@,
{
    String::from_str(
        "The selected visual source is no longer providing frames. Stop visual translation or choose another source.",
    )
}

} // verus!
