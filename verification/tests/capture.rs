use prollyglot_runtime::capture::{
    keeps_peak, projected_capture, queue_latest_audio, queue_outcome, AudioEventForwarding,
    AudioQueueResult, CaptureProjection, PublishedAudioStatus, StateDecision,
};
use prollyglot_runtime::contracts::{
    ApplicationErrorCode, CaptureState, RecoveryAction, RuntimeHealth, RuntimeSnapshot, SessionHealthLevel,
    SessionId, SessionLifecycle, SessionMode, SessionSource, SessionSourceKind,
};

#[test]
fn full_inference_queue_discards_all_stale_packets() {
    let (sender, receiver) = crossbeam_channel::bounded(2);
    let overflow_receiver = receiver.clone();
    sender.try_send(0_u64).expect("first packet");
    sender.try_send(1_u64).expect("second packet");

    assert!(matches!(
        queue_latest_audio(&sender, &overflow_receiver, 2_u64),
        AudioQueueResult::Queued { dropped: 2 }
    ));
    assert_eq!(receiver.recv().expect("newest"), 2);
    assert!(receiver.try_recv().is_err());
}

#[test]
fn queueing_reports_a_closed_transcription_queue() {
    let (sender, receiver) = crossbeam_channel::bounded(2);
    let overflow_receiver = receiver.clone();
    assert_eq!(
        queue_latest_audio(&sender, &overflow_receiver, 1_u64),
        AudioQueueResult::Queued { dropped: 0 }
    );
    drop(receiver);
    drop(overflow_receiver);
    let (_, other) = crossbeam_channel::bounded::<u64>(1);
    assert_eq!(queue_latest_audio(&sender, &other, 2_u64), AudioQueueResult::Disconnected);
    assert_eq!(queue_outcome(false, true, 3, false, true), AudioQueueResult::Queued { dropped: 4 });
    assert_eq!(queue_outcome(false, true, 3, true, false), AudioQueueResult::Queued { dropped: 3 });
    assert_eq!(queue_outcome(false, true, 3, false, false), AudioQueueResult::Disconnected);
}

fn waiting_snapshot() -> RuntimeSnapshot {
    RuntimeSnapshot {
        session_id: Some(SessionId(9)),
        mode: Some(SessionMode::AudioCaptions),
        source: Some(SessionSource::new(
            "default-output",
            SessionSourceKind::SystemOutput,
            "System default",
        )),
        lifecycle: SessionLifecycle::Waiting,
        health: RuntimeHealth::recovering("Waiting for audio"),
        ..RuntimeSnapshot::default()
    }
}

#[test]
fn capture_status_is_only_a_projection_of_runtime_lifecycle() {
    let current_peak = 0.7_f32;
    let current = CaptureProjection {
        state: CaptureState::Capturing,
        dropped_frames: 4,
        source_label: Some("old".into()),
        message: Some("old".into()),
    };
    let projected = projected_capture(&current, &waiting_snapshot());
    assert_eq!(projected.state, CaptureState::Waiting);
    assert_eq!(projected.source_label.as_deref(), Some("System default"));
    assert_eq!(projected.message.as_deref(), Some("Waiting for audio"));
    let projected_peak = if keeps_peak(projected.state) { current_peak } else { 0.0 };
    assert_eq!(projected_peak, 0.7);
    assert_eq!(projected.dropped_frames, 4);

    let stopped = projected_capture(&current, &RuntimeSnapshot::default());
    assert_eq!(stopped.state, CaptureState::Stopped);
    assert_eq!(stopped.dropped_frames, 0);
    assert_eq!(stopped.source_label, None);
    assert!(!keeps_peak(stopped.state));
}

#[test]
fn out_of_order_runtime_snapshots_cannot_regress_the_compatibility_status() {
    let mut published = PublishedAudioStatus::default();
    let running = RuntimeSnapshot {
        revision: 4,
        session_id: Some(SessionId(2)),
        mode: Some(SessionMode::AudioCaptions),
        lifecycle: SessionLifecycle::Running,
        ..RuntimeSnapshot::default()
    };
    let stale_starting = RuntimeSnapshot {
        revision: 3,
        lifecycle: SessionLifecycle::Starting,
        ..running.clone()
    };

    assert!(published.apply_snapshot(&running).is_some());
    assert!(published.apply_snapshot(&stale_starting).is_none());
    assert_eq!(published.runtime_revision, 4);
    assert_eq!(published.capture.state, CaptureState::Capturing);

    assert!(published.record_metrics(&stale_starting, 9).is_none());
    let metrics = published.record_metrics(&running, 9).expect("current revision");
    assert_eq!(metrics.dropped_frames, 9);
    assert_eq!(published.capture.dropped_frames, 9);
}

#[test]
fn capture_events_decide_the_session_lifecycle() {
    let forwarding = AudioEventForwarding::new(SessionId(5));
    assert!(matches!(forwarding.on_state(CaptureState::Starting, false), StateDecision::Ignore));
    assert!(matches!(forwarding.on_state(CaptureState::Capturing, false), StateDecision::Resume));
    assert!(matches!(
        forwarding.on_state(CaptureState::Waiting, false),
        StateDecision::Wait(message) if message == "The selected audio source is temporarily unavailable."
    ));
    assert!(matches!(forwarding.on_state(CaptureState::Stopped, true), StateDecision::Finish));
    match forwarding.on_state(CaptureState::Stopping, false) {
        StateDecision::Fail(error) => {
            assert_eq!(error.code, ApplicationErrorCode::CaptureFailed);
            assert_eq!(error.message, "The audio capture session stopped unexpectedly.");
            assert_eq!(error.suggested_action, RecoveryAction::StopAndRetry);
            assert_eq!(error.session_id, Some(SessionId(5)));
        }
        other => panic!("unexpected decision {other:?}"),
    }
    match forwarding.on_state(CaptureState::Failed, false) {
        StateDecision::Fail(error) => {
            assert_eq!(error.suggested_action, RecoveryAction::ChooseAnotherSource);
        }
        other => panic!("unexpected decision {other:?}"),
    }
    let error = forwarding.on_error("device vanished");
    assert_eq!(error.message, "device vanished");
}

#[test]
fn lost_audio_is_reported_at_most_once_a_second_and_recovers_after_a_grace() {
    let mut forwarding = AudioEventForwarding::new(SessionId(5));
    let first = forwarding
        .on_frame_queued(AudioQueueResult::Queued { dropped: 3 }, 128, 10_000)
        .expect("queued");
    assert_eq!(
        first.health,
        Some((
            SessionHealthLevel::Degraded,
            Some("Transcription fell behind; 3 old audio packets were skipped to stay live.".to_string())
        ))
    );
    assert_eq!(first.metrics, Some(3));

    let second = forwarding
        .on_frame_queued(AudioQueueResult::Queued { dropped: 2 }, 128, 10_500)
        .expect("queued");
    assert_eq!(second.health, None);
    assert_eq!(forwarding.inference_dropped, 5);

    let early = forwarding
        .on_frame_queued(AudioQueueResult::Queued { dropped: 0 }, 10, 11_000)
        .expect("queued");
    assert_eq!(early.health, None);
    let recovered = forwarding
        .on_frame_queued(AudioQueueResult::Queued { dropped: 0 }, 10, 12_600)
        .expect("queued");
    assert_eq!(recovered.health, Some((SessionHealthLevel::Healthy, None)));
    assert_eq!(forwarding.last_inference_drop, None);

    let (message, total) = forwarding.on_frames_dropped(7);
    assert_eq!(message, "Audio processing fell behind; 7 packets were dropped.");
    assert_eq!(total, 12);

    let peak = forwarding
        .on_frame_queued(AudioQueueResult::Queued { dropped: 0 }, 0, 12_620)
        .expect("queued");
    assert_eq!(peak.metrics, None);

    let error = forwarding
        .on_frame_queued(AudioQueueResult::Disconnected, 0, 13_000)
        .expect_err("closed");
    assert_eq!(error.code, ApplicationErrorCode::WorkerExited);
}
