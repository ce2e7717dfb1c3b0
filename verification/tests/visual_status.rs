use prollyglot_runtime::contracts::{
    SessionMode, SessionSource, SessionSourceKind, StartSessionRequest, VisualState,
};
use prollyglot_runtime::supervisor::SessionSupervisor;
use prollyglot_runtime::visual_status::PublishedVisualStatus;

fn visual_request() -> StartSessionRequest {
    StartSessionRequest {
        mode: SessionMode::VisualTranslation,
        source: SessionSource::new("display:1", SessionSourceKind::Display, "Display 1"),
    }
}

#[test]
fn visual_status_follows_the_runtime_lifecycle() {
    let mut supervisor = SessionSupervisor::new();
    let started = supervisor.start(visual_request()).expect("start visual");
    let mut published = PublishedVisualStatus::default();

    let starting = published
        .apply_snapshot(&started.snapshot)
        .expect("newer snapshot");
    assert!(starting.active);
    assert_eq!(starting.state, VisualState::Starting);
    assert_eq!(starting.source_label.as_deref(), Some("Display 1"));

    let running = supervisor
        .mark_running(started.session_id)
        .expect("mark running");
    let capturing = published.apply_snapshot(&running).expect("newer snapshot");
    assert_eq!(capturing.state, VisualState::Capturing);

    let stats = published
        .record_pipeline_stats(started.session_id, 10, 8, 2, 3)
        .expect("capturing session accepts counters");
    assert_eq!(stats.frames_received, 10);
    assert_eq!(stats.frames_analyzed, 8);
    assert_eq!(stats.frames_unchanged, 2);
    assert_eq!(stats.visible_regions, 3);

    assert!(published.record_overlay_regions(started.session_id, 2).is_some());
    assert!(published.record_overlay_regions(started.session_id, 2).is_none());
    let replaced = published
        .record_replaced_frames(started.session_id, 5)
        .expect("capturing session accepts counters");
    assert_eq!(replaced.replaced_frames, 5);
    assert_eq!(replaced.overlay_regions, 2);
    assert_eq!(replaced.frames_received, 10);
}

#[test]
fn stale_snapshots_and_foreign_counters_are_ignored() {
    let mut supervisor = SessionSupervisor::new();
    let started = supervisor.start(visual_request()).expect("start visual");
    let running = supervisor
        .mark_running(started.session_id)
        .expect("mark running");
    let mut published = PublishedVisualStatus::default();
    published.apply_snapshot(&running).expect("newer snapshot");

    assert!(published.apply_snapshot(&started.snapshot).is_none());
    assert!(published.apply_snapshot(&running).is_none());
    assert_eq!(published.visual.state, VisualState::Capturing);

    let other = prollyglot_runtime::contracts::SessionId(started.session_id.0 + 1);
    assert!(published.record_pipeline_stats(other, 1, 1, 1, 1).is_none());
    assert!(published.record_replaced_frames(other, 1).is_none());
    assert_eq!(published.visual.frames_received, 0);
}

#[test]
fn leaving_the_visual_session_resets_the_status() {
    let mut supervisor = SessionSupervisor::new();
    let started = supervisor.start(visual_request()).expect("start visual");
    let running = supervisor
        .mark_running(started.session_id)
        .expect("mark running");
    let mut published = PublishedVisualStatus::default();
    published.apply_snapshot(&running).expect("newer snapshot");
    published
        .record_pipeline_stats(started.session_id, 4, 4, 0, 1)
        .expect("counters");

    let stopping = supervisor
        .request_stop(Some(started.session_id))
        .expect("stop");
    let status = published
        .apply_snapshot(&stopping.snapshot)
        .expect("newer snapshot");
    assert_eq!(status.state, VisualState::Stopping);
    assert_eq!(status.frames_received, 4);

    let stopped = supervisor
        .finish_cleanup(started.session_id, Ok(()))
        .expect("cleanup")
        .expect("stopped snapshot");
    let idle = published.apply_snapshot(&stopped).expect("newer snapshot");
    assert!(!idle.active);
    assert_eq!(idle.state, VisualState::Stopped);
    assert_eq!(idle.frames_received, 0);
    assert_eq!(published.session_id, None);
}
