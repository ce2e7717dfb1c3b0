//! The bookkeeping of a capture stream's event queue: the frame sequence,
//! where audio went missing, the capture state still to be reported and the
//! count of frames the queue refused. The signal-level measurements that
//! decide the capture state are made by the caller and handed in.

use vstd::prelude::*;
use vstd::string::*;

use crate::capture::{try_send, SendAttempt};
use crate::contracts::CaptureState;
use crate::graph::{CaptureError, Sink};
use crate::speech::str_eq;

verus! {

/// One event of a capture stream, carrying frames of type `F`.
pub enum StreamEvent<F> {
    State(CaptureState),
    FramesDropped { total: u64 },
    Frame(F),
    /// The capture lost its source and will retry it.
    Recovery { kind: RecoveryKind, message: String, retry_after_millis: u64 },
}

/// Why a capture is recovering.
#[derive(Clone, Copy, Debug, PartialEq, Eq, Structural)]
pub enum RecoveryKind {
    DefaultPlaybackDeviceChanged,
    PlaybackDeviceUnavailable,
    ApplicationUnavailable,
    ApplicationAmbiguous,
}

/// How long, in milliseconds, a recovering capture waits before it retries.
pub const RECOVERY_RETRY_AFTER_MILLIS: u64 = 500;

/// The message that reports a recovery for `reason`.
pub open spec fn recovery_message(reason: Seq<char>) -> Seq<char> {
    reason + " Prollyglot will retry the selected source automatically."@
}

/// The publishing side of a capture stream. It never blocks: an event that
/// finds the queue full is dropped, a refused frame is counted and the next
/// frame that gets through is marked as following a gap.
#[verifier::reject_recursive_types(F)]
pub struct CapturePublisher<F> {
    pub events: crossbeam_channel::Sender<StreamEvent<F>>,
    /// The sequence number of the next frame.
    pub sequence: u64,
    /// Whether the next frame follows missing audio.
    pub discontinuity: bool,
    /// The capture state not yet reported.
    pub state: Option<CaptureState>,
    /// How many frames the queue refused.
    pub dropped: u64,
    /// The refused-frame count last reported.
    pub reported_dropped: u64,
    /// Whether the receiving side has gone.
    pub disconnected: bool,
    /// The events the queue accepted from this publisher, oldest first.
    pub queued: Ghost<Seq<StreamEvent<F>>>,
}

/// The pending state after the signal monitor reported `observed`.
pub open spec fn pending_state(current: Option<CaptureState>, observed: Option<CaptureState>) -> Option<CaptureState> {
    match observed {
        Some(state) => Some(state),
        None => current,
    }
}

/// What a tick may leave of the pending state `pending`: it is cleared once
/// reported, and kept while the queue refuses it.
pub open spec fn state_after_tick(pending: Option<CaptureState>, left: Option<CaptureState>) -> bool {
    left == pending || (left is None && pending is Some)
}

/// What a tick may leave of the reported count: it catches up with the
/// refused-frame count once that count is reported.
pub open spec fn reported_after_tick(dropped: u64, reported: u64, left: u64) -> bool {
    left == reported || (left == dropped && dropped != reported)
}

/// The events a tick queues: the pending state `pending`, when the tick
/// cleared it (`left` is what it left pending), then the refused-frame count
/// `dropped`, when the tick moved the reported count off `reported`.
pub open spec fn tick_events<F>(
    pending: Option<CaptureState>,
    left: Option<CaptureState>,
    dropped: u64,
    reported: u64,
    left_reported: u64,
) -> Seq<StreamEvent<F>> {
    (if pending is Some && left is None {
        seq![StreamEvent::State(pending->0)]
    } else {
        seq![]
    }) + (if left_reported != reported {
        seq![StreamEvent::FramesDropped { total: dropped }]
    } else {
        seq![]
    })
}

/// How a tick after the signal monitor reported `observed` leaves the
/// publisher `before` as `after`.
pub open spec fn tick_rel<F>(
    before: CapturePublisher<F>,
    after: CapturePublisher<F>,
    observed: Option<CaptureState>,
) -> bool {
    &&& after.events == before.events
    &&& after.sequence == before.sequence
    &&& after.discontinuity == before.discontinuity
    &&& after.dropped == before.dropped
    &&& state_after_tick(pending_state(before.state, observed), after.state)
    &&& reported_after_tick(before.dropped, before.reported_dropped, after.reported_dropped)
    &&& before.disconnected ==> after.disconnected
    &&& after.queued@ == before.queued@ + tick_events(
        pending_state(before.state, observed),
        after.state,
        before.dropped,
        before.reported_dropped,
        after.reported_dropped,
    )
}

impl<F> CapturePublisher<F> {
    /// A publisher whose first frame is marked as following a gap, since
    /// nothing came before it.
    pub fn new(events: crossbeam_channel::Sender<StreamEvent<F>>) -> (publisher: Self)
        ensures
            publisher.events == events,
            publisher.sequence == 0,
            publisher.discontinuity,
            publisher.state is None,
            publisher.dropped == 0,
            publisher.reported_dropped == 0,
            !publisher.disconnected,
            publisher.queued@ == Seq::<StreamEvent<F>>::empty(),
    {
        CapturePublisher {
            events,
            sequence: 0,
            discontinuity: true,
            state: None,
            dropped: 0,
            reported_dropped: 0,
            disconnected: false,
            queued: Ghost(Seq::empty()),
        }
    }

    /// The stream was opened again: its next frame follows a gap, and the
    /// capture is reported as running again. Sequence and counts go on.
    pub fn reopened(&mut self)
        ensures
            *final(self) == (CapturePublisher {
                discontinuity: true,
                state: Some(CaptureState::Capturing),
                ..*old(self)
            }),
    {
        self.discontinuity = true;
        self.state = Some(CaptureState::Capturing);
    }

    /// Offers one event to the queue without blocking. Returns whether it was
    /// queued; a refusal because the receiver is gone marks the publisher as
    /// disconnected. Which happens depends on the receiving thread.
    pub fn send(&mut self, event: StreamEvent<F>) -> (sent: bool)
        ensures
            sent ==> *final(self) == (CapturePublisher {
                queued: Ghost(old(self).queued@.push(event)),
                ..*old(self)
            }),
            !sent ==> *final(self) == (CapturePublisher {
                disconnected: final(self).disconnected,
                ..*old(self)
            }),
            old(self).disconnected ==> final(self).disconnected,
    {
        let ghost offered = event;
        match try_send(&self.events, event) {
            SendAttempt::Sent => {
                self.queued = Ghost(self.queued@.push(offered));
                true
            },
            SendAttempt::Full(_) => false,
            SendAttempt::Disconnected(_) => {
                self.disconnected = true;
                false
            },
        }
    }

    /// Records the state the signal monitor reported, if any, then reports
    /// the pending state and a changed refused-frame count as far as the
    /// queue takes them.
    pub fn tick(&mut self, observed: Option<CaptureState>)
        ensures
            tick_rel(*old(self), *final(self), observed),
    {
        if let Some(state) = observed {
            self.state = Some(state);
        }
        let ghost before = self.queued@;
        if let Some(state) = self.state {
            if self.send(StreamEvent::State(state)) {
                self.state = None;
            }
        }
        let ghost middle = self.queued@;
        if self.dropped != self.reported_dropped {
            let total = self.dropped;
            if self.send(StreamEvent::FramesDropped { total }) {
                self.reported_dropped = total;
            }
        }
        proof {
            let pending = pending_state(old(self).state, observed);
            let state_events: Seq<StreamEvent<F>> = if pending is Some && self.state is None {
                seq![StreamEvent::State(pending->0)]
            } else {
                seq![]
            };
            assert(middle =~= before + state_events);
            assert(self.queued@ =~= before + tick_events(
                pending,
                self.state,
                old(self).dropped,
                old(self).reported_dropped,
                self.reported_dropped,
            ));
        }
    }

    /// Publishes a frame built with the current sequence number and gap
    /// mark. `observed` is what the signal monitor made of the frame and
    /// `ticked` what it reports at this time. A frame the queue refuses is
    /// counted, and the next one is marked as following a gap.
    pub fn publish_frame(&mut self, frame: F, observed: Option<CaptureState>, ticked: Option<CaptureState>)
        ensures
            final(self).events == old(self).events,
            final(self).sequence == old(self).sequence.wrapping_add(1),
            !final(self).discontinuity && final(self).dropped == old(self).dropped
                || final(self).discontinuity && final(self).dropped == old(self).dropped.saturating_add(1),
            state_after_tick(
                pending_state(pending_state(old(self).state, observed), ticked),
                final(self).state,
            ),
            reported_after_tick(old(self).dropped, old(self).reported_dropped, final(self).reported_dropped),
            old(self).disconnected ==> final(self).disconnected,
            final(self).queued@ == old(self).queued@ + tick_events(
                pending_state(pending_state(old(self).state, observed), ticked),
                final(self).state,
                old(self).dropped,
                old(self).reported_dropped,
                final(self).reported_dropped,
            ) + if final(self).discontinuity {
                Seq::<StreamEvent<F>>::empty()
            } else {
                seq![StreamEvent::Frame(frame)]
            },
    {
        let ghost offered = frame;
        self.sequence = self.sequence.wrapping_add(1);
        if let Some(state) = observed {
            self.state = Some(state);
        }
        self.tick(ticked);
        let ghost ticked_events = self.queued@;
        if self.send(StreamEvent::Frame(frame)) {
            self.discontinuity = false;
            assert(self.queued@ =~= ticked_events + seq![StreamEvent::Frame(offered)]);
        } else {
            self.dropped = self.dropped.saturating_add(1);
            self.discontinuity = true;
            assert(self.queued@ =~= ticked_events + Seq::<StreamEvent<F>>::empty());
        }
    }
}

/// The message that reports a recovery for `reason`.
pub fn recovery_text(reason: &str) -> (message: String)
    ensures
        message@ == recovery_message(reason@),
{
    let mut message = String::from_str(reason);
    message.append(" Prollyglot will retry the selected source automatically.");
    message
}

/// Whether `event` reports a recovery of `kind` from `reason`, retried
/// after the usual pause.
pub open spec fn recovery_event<F>(event: StreamEvent<F>, reason: Seq<char>, kind: RecoveryKind) -> bool {
    event matches StreamEvent::Recovery { kind: k, message: m, retry_after_millis: r } && k == kind
        && m@ == recovery_message(reason) && r == RECOVERY_RETRY_AFTER_MILLIS
}

impl<F> CapturePublisher<F> {
    /// Reports that the capture recovers from `reason`, unless the last
    /// recovery reported, `previous`, had the same reason; `previous` is
    /// updated only when the report reaches the queue.
    pub fn report_recovery(&mut self, reason: &str, kind: RecoveryKind, previous: &mut Option<String>)
        ensures
            final(self).events == old(self).events,
            final(self).sequence == old(self).sequence,
            final(self).discontinuity == old(self).discontinuity,
            final(self).state == old(self).state,
            final(self).dropped == old(self).dropped,
            final(self).reported_dropped == old(self).reported_dropped,
            old(self).disconnected ==> final(self).disconnected,
            (*old(previous) matches Some(last) && last@ == reason@) ==> *final(previous) == *old(
                previous,
            ) && final(self).disconnected == old(self).disconnected,
            (*final(previous) matches Some(last) && last@ == reason@) || *final(previous) == *old(
                previous,
            ),
            final(self).queued@ == old(self).queued@ || (final(self).queued@.len()
                == old(self).queued@.len() + 1 && final(self).queued@.drop_last() == old(
                self,
            ).queued@ && recovery_event(final(self).queued@.last(), reason@, kind)),
    {
        let repeated = match previous {
            Some(last) => str_eq(last.as_str(), reason),
            None => false,
        };
        if repeated {
            return;
        }
        let message = recovery_text(reason);
        let event = StreamEvent::Recovery {
            kind,
            message,
            retry_after_millis: RECOVERY_RETRY_AFTER_MILLIS,
        };
        let ghost offered = event;
        assert(recovery_event(offered, reason@, kind));
        let ghost before = self.queued@;
        if self.send(event) {
            assert(self.queued@.drop_last() =~= before);
            *previous = Some(String::from_str(reason));
        }
    }
}

/// Whether two playback sinks are the same device.
pub open spec fn same_sink(a: Sink, b: Sink) -> bool {
    a.serial@ == b.serial@ && a.name@ == b.name@ && a.description@ == b.description@
}

/// What the capture does with the sink its selection resolves to.
#[derive(Clone, Copy, Debug, PartialEq, Eq, Structural)]
pub enum StreamPlan {
    /// Keep monitoring the open stream.
    Keep,
    /// Open a stream on the sink, reporting first that the system default
    /// changed when it replaces a stream that followed the old default.
    Open { default_changed: bool },
}

/// Whether the stream on `active` must give way to one on `target`.
pub fn stream_plan(active: Option<&Sink>, target: &Sink, follows_default: bool) -> (plan: StreamPlan)
    ensures
        plan == match active {
            Some(current) => if same_sink(*current, *target) {
                StreamPlan::Keep
            } else {
                StreamPlan::Open { default_changed: follows_default }
            },
            None => StreamPlan::Open { default_changed: false },
        },
{
    match active {
        Some(current) => if str_eq(current.serial.as_str(), target.serial.as_str()) && str_eq(
            current.name.as_str(),
            target.name.as_str(),
        ) && str_eq(current.description.as_str(), target.description.as_str()) {
            StreamPlan::Keep
        } else {
            StreamPlan::Open { default_changed: follows_default }
        },
        None => StreamPlan::Open { default_changed: false },
    }
}

/// The recovery an application capture reports when its source cannot be
/// captured: an ambiguous source asks the user to choose, any other waits.
pub fn application_recovery_kind(error: &CaptureError) -> (kind: RecoveryKind)
    ensures
        kind == match error {
            CaptureError::AmbiguousSource(_) => RecoveryKind::ApplicationAmbiguous,
            _ => RecoveryKind::ApplicationUnavailable,
        },
{
    match error {
        CaptureError::AmbiguousSource(_) => RecoveryKind::ApplicationAmbiguous,
        _ => RecoveryKind::ApplicationUnavailable,
    }
}

/// The recovery a capture reports when its worker failed.
pub fn worker_recovery_kind(application: bool) -> (kind: RecoveryKind)
    ensures
        kind == if application {
            RecoveryKind::ApplicationUnavailable
        } else {
            RecoveryKind::PlaybackDeviceUnavailable
        },
{
    if application {
        RecoveryKind::ApplicationUnavailable
    } else {
        RecoveryKind::PlaybackDeviceUnavailable
    }
}

/// The refusal when the selected application plays nothing to capture.
pub fn nothing_to_capture() -> (error: CaptureError)
    ensures
        error matches CaptureError::SourceUnavailable(message) && message@
            == "The selected application is not playing capturable audio."@,
{
    CaptureError::SourceUnavailable(String::from_str("The selected application is not playing capturable audio."))
}

/// A state that a PipeWire stream or filter reports.
#[derive(Clone, Debug, PartialEq, Eq)]
pub enum StreamStatus {
    Unconnected,
    Connecting,
    Paused,
    Streaming,
    /// The stream failed, with PipeWire's message where it gave one.
    Error(Option<String>),
}

/// Whether a capture's stream has connected, and why it failed if it did.
#[derive(Clone, Debug, PartialEq, Eq)]
pub struct CaptureLink {
    pub connected: bool,
    pub failure: Option<String>,
}

impl CaptureLink {
    pub fn new() -> (link: Self)
        ensures
            !link.connected,
            link.failure is None,
    {
        CaptureLink { connected: false, failure: None }
    }

    /// Follows a device capture stream: it connects once paused or
    /// streaming, and it fails on an error, or when it falls back to
    /// unconnected after having connected. A stream's error always carries
    /// PipeWire's message.
    pub fn stream_changed(&mut self, status: StreamStatus)
        requires
            !(status matches StreamStatus::Error(None)),
        ensures
            match status {
                StreamStatus::Paused | StreamStatus::Streaming => final(self).connected
                    && final(self).failure == old(self).failure,
                StreamStatus::Error(message) => (final(self).failure matches Some(f) && message
                    matches Some(m) && f@ == m@) && final(self).connected == old(self).connected,
                StreamStatus::Unconnected => final(self).connected == old(self).connected && (if old(
                    self,
                ).connected {
                    (final(self).failure matches Some(f) && f@ == "capture stream disconnected"@)
                } else {
                    final(self).failure == old(self).failure
                }),
                StreamStatus::Connecting => *final(self) == *old(self),
            },
    {
        match status {
            StreamStatus::Paused | StreamStatus::Streaming => {
                self.connected = true;
            },
            StreamStatus::Error(Some(message)) => {
                self.failure = Some(message);
            },
            StreamStatus::Error(None) => {},
            StreamStatus::Unconnected => {
                if self.connected {
                    self.failure = Some(String::from_str("capture stream disconnected"));
                }
            },
            StreamStatus::Connecting => {},
        }
    }

    /// Follows an application-monitor filter: it is connected exactly while
    /// paused or streaming, and an error records its message, or a generic
    /// one where PipeWire gave none.
    pub fn filter_changed(&mut self, status: StreamStatus)
        ensures
            match status {
                StreamStatus::Paused | StreamStatus::Streaming => final(self).connected
                    && final(self).failure == old(self).failure,
                StreamStatus::Error(message) => (final(self).failure matches Some(f) && f@
                    == match message {
                    Some(m) => m@,
                    None => "Application audio monitor failed."@,
                }) && final(self).connected == old(self).connected,
                _ => !final(self).connected && final(self).failure == old(self).failure,
            },
    {
        match status {
            StreamStatus::Paused | StreamStatus::Streaming => {
                self.connected = true;
            },
            StreamStatus::Error(message) => {
                self.failure = Some(
                    match message {
                        Some(message) => message,
                        None => String::from_str("Application audio monitor failed."),
                    },
                );
            },
            _ => {
                self.connected = false;
            },
        }
    }
}

/// The most channels a negotiated capture stream may carry.
pub const MAX_STREAM_CHANNELS: u32 = 32;

/// The interleaved floating-point PCM layout a capture stream negotiated.
#[derive(Clone, Copy, Debug, PartialEq, Eq)]
pub struct NegotiatedFormat {
    pub sample_rate: u32,
    pub channels: u16,
}

/// Accepts the format PipeWire negotiated for a capture stream: it must
/// have parsed, be little-endian 32-bit float, carry one to 32 channels and
/// a positive rate.
pub fn negotiated_format(parsed: bool, float_le: bool, channels: u32, rate: u32) -> (result: Result<
    NegotiatedFormat,
    String,
>)
    ensures
        result is Ok <==> (parsed && float_le && 1 <= channels <= MAX_STREAM_CHANNELS && rate > 0),
        result matches Ok(format) ==> format.sample_rate == rate && format.channels == channels,
        result matches Err(message) ==> message@
            == "PipeWire did not negotiate interleaved floating-point PCM."@,
{
    if !parsed || !float_le || channels == 0 || channels > MAX_STREAM_CHANNELS || rate == 0 {
        return Err(String::from_str("PipeWire did not negotiate interleaved floating-point PCM."));
    }
    Ok(NegotiatedFormat { sample_rate: rate, channels: channels as u16 })
}

/// Whether `event`, queued by a tick that left `before` as `after` after the
/// monitor reported `observed`, reports what was pending: a state event the
/// newly observed state, or else the one still unreported, and a
/// refused-frame event the current refused-frame count.
pub open spec fn reports_pending<F>(
    event: StreamEvent<F>,
    before: CapturePublisher<F>,
    after: CapturePublisher<F>,
    observed: Option<CaptureState>,
) -> bool {
    match event {
        StreamEvent::State(state) => after.state is None && match observed {
            Some(seen) => state == seen,
            None => before.state == Some(state),
        },
        StreamEvent::FramesDropped { total } => total == before.dropped && after.reported_dropped
            == before.dropped,
        _ => false,
    }
}

/// The state a tick has to report after the monitor reported `observed`.
pub open spec fn state_to_report(before: Option<CaptureState>, observed: Option<CaptureState>) -> CaptureState {
    match observed {
        Some(seen) => seen,
        None => before->0,
    }
}

/// A tick reports what is pending and nothing else: the events it queues
/// follow those queued before and each reports what was pending; the state
/// is queued first, exactly when the tick clears it, and the refused-frame
/// count last, exactly when the reported count catches up with it.
pub proof fn ticks_report_the_pending_state<F>(
    before: CapturePublisher<F>,
    after: CapturePublisher<F>,
    observed: Option<CaptureState>,
)
    requires
        tick_rel(before, after, observed),
    ensures
        after.queued@.subrange(0, before.queued@.len() as int) == before.queued@,
        after.queued@.len() <= before.queued@.len() + 2,
        forall|i: int|
            before.queued@.len() <= i < after.queued@.len() ==> reports_pending(
                #[trigger] after.queued@[i],
                before,
                after,
                observed,
            ),
        after.state is None && (observed is Some || before.state is Some) ==> after.queued@[before.queued@.len() as int]
            == (StreamEvent::<F>::State(state_to_report(before.state, observed))),
        after.reported_dropped != before.reported_dropped ==> after.queued@.last()
            == (StreamEvent::<F>::FramesDropped { total: before.dropped }),
{
    let pending = pending_state(before.state, observed);
    let added = tick_events::<F>(pending, after.state, before.dropped, before.reported_dropped, after.reported_dropped);
    assert(after.queued@.subrange(0, before.queued@.len() as int) =~= before.queued@);
    assert forall|i: int| before.queued@.len() <= i < after.queued@.len() implies reports_pending(
        #[trigger] after.queued@[i],
        before,
        after,
        observed,
    ) by {
        assert(after.queued@[i] == added[i - before.queued@.len()]);
    }
}

} // verus!
