use prollyglot_runtime::capture_publisher::{
    application_recovery_kind, negotiated_format, nothing_to_capture, recovery_text, stream_plan,
    worker_recovery_kind, CaptureLink, CapturePublisher, RecoveryKind, StreamEvent, StreamPlan,
    NegotiatedFormat, StreamStatus,
};
use prollyglot_runtime::graph::{CaptureError, Sink};
use prollyglot_runtime::contracts::CaptureState;

#[derive(Clone, Copy, Debug)]
struct Frame {
    sequence: u64,
    discontinuity: bool,
    captured_at_micros: u64,
}

fn publish(publisher: &mut CapturePublisher<Frame>, captured_at_micros: u64) {
    let frame = Frame {
        sequence: publisher.sequence,
        discontinuity: publisher.discontinuity,
        captured_at_micros,
    };
    publisher.publish_frame(frame, None, None);
}

fn first_frame(events: Vec<StreamEvent<Frame>>) -> Option<Frame> {
    events.into_iter().find_map(|event| match event {
        StreamEvent::Frame(frame) => Some(frame),
        _ => None,
    })
}

#[test]
fn queue_overflow_and_reopen_preserve_time_and_mark_discontinuity() {
    let (tx, rx) = crossbeam_channel::bounded(4);
    let mut publisher = CapturePublisher::new(tx);
    let mut clock = 0;
    publish(&mut publisher, clock);
    let first = match rx.recv().unwrap() {
        StreamEvent::Frame(frame) => frame,
        _ => panic!("expected frame"),
    };
    for _ in 0..10 {
        clock += 10;
        publish(&mut publisher, clock);
    }
    rx.try_iter().for_each(drop);
    clock += 10;
    publish(&mut publisher, clock);
    let events: Vec<_> = rx.try_iter().collect();
    assert!(events
        .iter()
        .any(|event| matches!(event, StreamEvent::FramesDropped { total } if *total > 0)));
    let newest = first_frame(events).unwrap();
    assert!(newest.discontinuity && newest.sequence > first.sequence);
    publisher.reopened();
    clock += 10;
    publish(&mut publisher, clock);
    let events: Vec<_> = rx.try_iter().collect();
    assert!(events
        .iter()
        .any(|event| matches!(event, StreamEvent::State(CaptureState::Capturing))));
    let recovered = first_frame(events).unwrap();
    assert!(recovered.discontinuity && recovered.sequence > newest.sequence);
    assert!(recovered.captured_at_micros >= newest.captured_at_micros);
}

#[test]
fn a_new_publisher_marks_its_first_frame_and_counts_refusals() {
    let (tx, rx) = crossbeam_channel::bounded(1);
    let mut publisher = CapturePublisher::new(tx);
    assert!(publisher.discontinuity);
    assert_eq!(publisher.sequence, 0);
    publish(&mut publisher, 0);
    assert!(!publisher.discontinuity);
    publish(&mut publisher, 1);
    assert!(publisher.discontinuity);
    assert_eq!(publisher.dropped, 1);
    assert_eq!(publisher.reported_dropped, 0);
    assert_eq!(publisher.sequence, 2);
    drop(rx);
    publisher.tick(Some(CaptureState::Waiting));
    assert!(publisher.disconnected);
    assert_eq!(publisher.state, Some(CaptureState::Waiting));
    assert_eq!(publisher.reported_dropped, 0);
}

#[test]
fn recoveries_are_reported_once_per_reason() {
    let (tx, rx) = crossbeam_channel::bounded::<StreamEvent<Frame>>(4);
    let mut publisher = CapturePublisher::new(tx);
    let mut previous = None;
    publisher.report_recovery("The device is gone.", RecoveryKind::PlaybackDeviceUnavailable, &mut previous);
    publisher.report_recovery("The device is gone.", RecoveryKind::PlaybackDeviceUnavailable, &mut previous);
    assert_eq!(previous.as_deref(), Some("The device is gone."));
    let events: Vec<_> = rx.try_iter().collect();
    assert_eq!(events.len(), 1);
    match &events[0] {
        StreamEvent::Recovery { kind, message, retry_after_millis } => {
            assert_eq!(*kind, RecoveryKind::PlaybackDeviceUnavailable);
            assert_eq!(
                message,
                "The device is gone. Prollyglot will retry the selected source automatically."
            );
            assert_eq!(*retry_after_millis, 500);
        }
        _ => panic!("expected a recovery"),
    }
    publisher.report_recovery("Another reason.", RecoveryKind::ApplicationUnavailable, &mut previous);
    assert_eq!(previous.as_deref(), Some("Another reason."));
    assert_eq!(recovery_text("x."), "x. Prollyglot will retry the selected source automatically.");
}

#[test]
fn streams_follow_their_sink() {
    let sink = |serial: &str| Sink { serial: serial.into(), name: "out".into(), description: "Out".into() };
    assert_eq!(stream_plan(None, &sink("1"), true), StreamPlan::Open { default_changed: false });
    assert_eq!(stream_plan(Some(&sink("1")), &sink("1"), true), StreamPlan::Keep);
    assert_eq!(stream_plan(Some(&sink("1")), &sink("2"), true), StreamPlan::Open { default_changed: true });
    assert_eq!(stream_plan(Some(&sink("1")), &sink("2"), false), StreamPlan::Open { default_changed: false });
    assert_eq!(
        application_recovery_kind(&CaptureError::AmbiguousSource("two".into())),
        RecoveryKind::ApplicationAmbiguous
    );
    assert_eq!(application_recovery_kind(&nothing_to_capture()), RecoveryKind::ApplicationUnavailable);
    assert_eq!(
        nothing_to_capture(),
        CaptureError::SourceUnavailable("The selected application is not playing capturable audio.".into())
    );
    assert_eq!(worker_recovery_kind(true), RecoveryKind::ApplicationUnavailable);
    assert_eq!(worker_recovery_kind(false), RecoveryKind::PlaybackDeviceUnavailable);
}

#[test]
fn a_device_stream_fails_only_after_it_connected_or_on_error() {
    let mut link = CaptureLink::new();
    link.stream_changed(StreamStatus::Unconnected);
    assert_eq!(link, CaptureLink::new());
    link.stream_changed(StreamStatus::Connecting);
    link.stream_changed(StreamStatus::Streaming);
    assert!(link.connected);
    assert_eq!(link.failure, None);
    link.stream_changed(StreamStatus::Unconnected);
    assert_eq!(link.failure.as_deref(), Some("capture stream disconnected"));

    let mut failed = CaptureLink::new();
    failed.stream_changed(StreamStatus::Error(Some("no target node".into())));
    assert!(!failed.connected);
    assert_eq!(failed.failure.as_deref(), Some("no target node"));
}

#[test]
fn an_application_filter_is_connected_only_while_it_runs() {
    let mut link = CaptureLink::new();
    link.filter_changed(StreamStatus::Paused);
    assert!(link.connected);
    link.filter_changed(StreamStatus::Unconnected);
    assert!(!link.connected);
    assert_eq!(link.failure, None);
    link.filter_changed(StreamStatus::Error(None));
    assert_eq!(link.failure.as_deref(), Some("Application audio monitor failed."));
    link.filter_changed(StreamStatus::Error(Some("graph error".into())));
    assert_eq!(link.failure.as_deref(), Some("graph error"));
}

#[test]
fn only_interleaved_float_streams_are_accepted() {
    assert_eq!(
        negotiated_format(true, true, 2, 48_000),
        Ok(NegotiatedFormat { sample_rate: 48_000, channels: 2 })
    );
    assert!(negotiated_format(true, true, 32, 44_100).is_ok());
    let refusal = Err("PipeWire did not negotiate interleaved floating-point PCM.".to_string());
    assert_eq!(negotiated_format(false, true, 2, 48_000), refusal);
    assert_eq!(negotiated_format(true, false, 2, 48_000), refusal);
    assert_eq!(negotiated_format(true, true, 0, 48_000), refusal);
    assert_eq!(negotiated_format(true, true, 33, 48_000), refusal);
    assert_eq!(negotiated_format(true, true, 2, 0), refusal);
}
