//! The visual-translation status that the adapter publishes, projected from
//! the runtime snapshot and the capture pipeline's counters.

use vstd::prelude::*;

use crate::contracts::{
    clone_text, RuntimeSnapshot, SessionId, SessionLifecycle, SessionMode, VisualState,
    VisualStatus,
};

verus! {

pub open spec fn visual_state_spec(lifecycle: SessionLifecycle) -> VisualState {
    match lifecycle {
        SessionLifecycle::Stopped => VisualState::Stopped,
        SessionLifecycle::Starting => VisualState::Starting,
        SessionLifecycle::Running => VisualState::Capturing,
        SessionLifecycle::Waiting => VisualState::Waiting,
        SessionLifecycle::Stopping => VisualState::Stopping,
        SessionLifecycle::Failed => VisualState::Failed,
    }
}

/// The message a snapshot shows: its failure's, else its health's.
pub open spec fn snapshot_message(snapshot: RuntimeSnapshot) -> Option<String> {
    match snapshot.failure {
        Some(failure) => Some(failure.message),
        None => snapshot.health.message,
    }
}

fn message_of(snapshot: &RuntimeSnapshot) -> (message: Option<String>)
    ensures
        message == snapshot_message(*snapshot),
{
    match &snapshot.failure {
        Some(failure) => Some(failure.message.clone()),
        None => clone_text(&snapshot.health.message),
    }
}

#[derive(Debug, Default)]
pub struct PublishedVisualStatus {
    pub runtime_revision: u32,
    pub session_id: Option<SessionId>,
    pub visual: VisualStatus,
}

/// The status projected from `snapshot`, keeping the counters of `published`
/// when it belongs to the same visual session.
pub open spec fn projected_visual_spec(published: PublishedVisualStatus, snapshot: RuntimeSnapshot, status: VisualStatus) -> bool {
    if snapshot.mode != Some(SessionMode::VisualTranslation) || snapshot.lifecycle
        == SessionLifecycle::Stopped {
        status.is_idle()
    } else {
        let kept = published.session_id == snapshot.session_id;
        &&& status.state == visual_state_spec(snapshot.lifecycle)
        &&& status.active == (snapshot.lifecycle != SessionLifecycle::Failed)
        &&& status.source_label == match snapshot.source {
            Some(source) => Some(source.label),
            None => None,
        }
        &&& status.message == snapshot_message(snapshot)
        &&& if kept {
            &&& status.frames_received == published.visual.frames_received
            &&& status.frames_analyzed == published.visual.frames_analyzed
            &&& status.frames_unchanged == published.visual.frames_unchanged
            &&& status.replaced_frames == published.visual.replaced_frames
            &&& status.visible_regions == published.visual.visible_regions
            &&& status.overlay_regions == published.visual.overlay_regions
        } else {
            &&& status.frames_received == 0
            &&& status.frames_analyzed == 0
            &&& status.frames_unchanged == 0
            &&& status.replaced_frames == 0
            &&& status.visible_regions == 0
            &&& status.overlay_regions == 0
        }
    }
}

pub fn projected_visual_status(published: &PublishedVisualStatus, snapshot: &RuntimeSnapshot) -> (status: VisualStatus)
    ensures
        projected_visual_spec(*published, *snapshot, status),
{
    if snapshot.mode != Some(SessionMode::VisualTranslation) {
        return VisualStatus::idle();
    }
    let mut next = if published.session_id == snapshot.session_id {
        published.visual.clone()
    } else {
        VisualStatus::idle()
    };
    next.state = match snapshot.lifecycle {
        SessionLifecycle::Stopped => VisualState::Stopped,
        SessionLifecycle::Starting => VisualState::Starting,
        SessionLifecycle::Running => VisualState::Capturing,
        SessionLifecycle::Waiting => VisualState::Waiting,
        SessionLifecycle::Stopping => VisualState::Stopping,
        SessionLifecycle::Failed => VisualState::Failed,
    };
    next.active = match snapshot.lifecycle {
        SessionLifecycle::Starting | SessionLifecycle::Running | SessionLifecycle::Waiting
        | SessionLifecycle::Stopping => true,
        _ => false,
    };
    next.source_label = match &snapshot.source {
        Some(source) => Some(source.label.clone()),
        None => None,
    };
    next.message = message_of(snapshot);
    if snapshot.lifecycle == SessionLifecycle::Stopped {
        VisualStatus::idle()
    } else {
        next
    }
}

impl PublishedVisualStatus {
    /// Applies a runtime snapshot newer than the last one applied, and
    /// returns the status to publish; an older or repeated snapshot is
    /// ignored.
    pub fn apply_snapshot(&mut self, snapshot: &RuntimeSnapshot) -> (next: Option<VisualStatus>)
        ensures
            snapshot.revision <= old(self).runtime_revision ==> next is None && *final(self) == *old(self),
            snapshot.revision > old(self).runtime_revision ==> (next matches Some(status) && {
                &&& projected_visual_spec(*old(self), *snapshot, status)
                &&& final(self).visual == status
                &&& final(self).runtime_revision == snapshot.revision
                &&& final(self).session_id == if snapshot.mode == Some(SessionMode::VisualTranslation) {
                    snapshot.session_id
                } else {
                    None
                }
            }),
    {
        if snapshot.revision <= self.runtime_revision {
            return None;
        }
        let next = projected_visual_status(self, snapshot);
        self.runtime_revision = snapshot.revision;
        self.session_id = if snapshot.mode == Some(SessionMode::VisualTranslation) {
            snapshot.session_id
        } else {
            None
        };
        self.visual = next.clone();
        Some(next)
    }

    /// Whether pipeline counters of `session_id` may update the status: only
    /// while that session is capturing.
    pub open spec fn accepts_counters(&self, session_id: SessionId) -> bool {
        self.session_id == Some(session_id) && self.visual.state == VisualState::Capturing
            && self.visual.active
    }

    pub fn record_pipeline_stats(
        &mut self,
        session_id: SessionId,
        frames_received: u64,
        frames_analyzed: u64,
        frames_unchanged: u64,
        stable_regions: u64,
    ) -> (next: Option<VisualStatus>)
        ensures
            !old(self).accepts_counters(session_id) ==> next is None && *final(self) == *old(self),
            old(self).accepts_counters(session_id) ==> next == Some(final(self).visual) && *final(self)
                == (PublishedVisualStatus {
                visual: VisualStatus {
                    frames_received,
                    frames_analyzed,
                    frames_unchanged,
                    visible_regions: stable_regions,
                    ..old(self).visual
                },
                ..*old(self)
            }),
    {
        if self.session_id != Some(session_id) || self.visual.state != VisualState::Capturing
            || !self.visual.active {
            return None;
        }
        self.visual.frames_received = frames_received;
        self.visual.frames_analyzed = frames_analyzed;
        self.visual.frames_unchanged = frames_unchanged;
        self.visual.visible_regions = stable_regions;
        Some(self.visual.clone())
    }

    pub fn record_overlay_regions(&mut self, session_id: SessionId, region_count: u64) -> (next: Option<VisualStatus>)
        ensures
            !old(self).accepts_counters(session_id) || old(self).visual.overlay_regions == region_count
                ==> next is None && *final(self) == *old(self),
            old(self).accepts_counters(session_id) && old(self).visual.overlay_regions != region_count
                ==> next == Some(final(self).visual) && *final(self) == (PublishedVisualStatus {
                visual: VisualStatus { overlay_regions: region_count, ..old(self).visual },
                ..*old(self)
            }),
    {
        if self.session_id != Some(session_id) || self.visual.state != VisualState::Capturing
            || !self.visual.active || self.visual.overlay_regions == region_count {
            return None;
        }
        self.visual.overlay_regions = region_count;
        Some(self.visual.clone())
    }

    pub fn record_replaced_frames(&mut self, session_id: SessionId, replaced_frames: u64) -> (next: Option<VisualStatus>)
        ensures
            !old(self).accepts_counters(session_id) ==> next is None && *final(self) == *old(self),
            old(self).accepts_counters(session_id) ==> next == Some(final(self).visual) && *final(self)
                == (PublishedVisualStatus {
                visual: VisualStatus { replaced_frames, ..old(self).visual },
                ..*old(self)
            }),
    {
        if self.session_id != Some(session_id) || self.visual.state != VisualState::Capturing
            || !self.visual.active {
            return None;
        }
        self.visual.replaced_frames = replaced_frames;
        Some(self.visual.clone())
    }
}

/// The visual state shown is the session lifecycle's counterpart: a
/// screen-translation session shows starting, capturing, waiting, stopping
/// or failed as its lifecycle is starting, running, waiting, stopping or
/// failed, so it shows capturing only while it runs; anything else shows
/// stopped.
pub proof fn visual_state_follows_the_lifecycle(
    published: PublishedVisualStatus,
    snapshot: RuntimeSnapshot,
    status: VisualStatus,
)
    requires
        projected_visual_spec(published, snapshot, status),
    ensures
        snapshot.mode == Some(SessionMode::VisualTranslation) ==> {
            &&& snapshot.lifecycle == SessionLifecycle::Starting ==> status.state
                == VisualState::Starting
            &&& snapshot.lifecycle == SessionLifecycle::Running ==> status.state
                == VisualState::Capturing
            &&& snapshot.lifecycle == SessionLifecycle::Waiting ==> status.state
                == VisualState::Waiting
            &&& snapshot.lifecycle == SessionLifecycle::Stopping ==> status.state
                == VisualState::Stopping
            &&& snapshot.lifecycle == SessionLifecycle::Failed ==> status.state
                == VisualState::Failed
            &&& snapshot.lifecycle == SessionLifecycle::Stopped ==> status.state
                == VisualState::Stopped
        },
        snapshot.mode != Some(SessionMode::VisualTranslation) ==> status.state == VisualState::Stopped,
        status.state == VisualState::Capturing <==> (snapshot.mode == Some(SessionMode::VisualTranslation)
            && snapshot.lifecycle == SessionLifecycle::Running),
{
}

} // verus!
