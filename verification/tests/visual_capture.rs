use prollyglot_runtime::contracts::{RuntimeSnapshot, SessionId, SessionLifecycle};
use prollyglot_runtime::visual_capture::{
    follows, frames_lost_message, recognition_action, result_age_micros, FrameFollowUp,
    PickedVisualSource, RecognitionAction, VisualEventTracking, MAX_VISUAL_RESULT_AGE_MICROS,
};

fn source() -> PickedVisualSource {
    PickedVisualSource {
        label: "Display 1".into(),
        x: 0,
        y: 0,
        width: 1920,
        height: 1080,
        portal: None,
    }
}

#[test]
fn frames_follow_the_source_geometry_and_pace_counter_updates() {
    let mut tracking = VisualEventTracking::new(SessionId(3), &source());
    assert_eq!(
        tracking.on_frame(0, 0, 1920, 1080, 1, 1_000),
        FrameFollowUp { geometry_changed: false, publish_replaced: Some(1) }
    );
    assert_eq!(
        tracking.on_frame(0, 0, 1920, 1080, 2, 1_200),
        FrameFollowUp { geometry_changed: false, publish_replaced: None }
    );
    assert_eq!(
        tracking.on_frame(10, 0, 1920, 1080, 3, 1_300),
        FrameFollowUp { geometry_changed: true, publish_replaced: Some(3) }
    );
    assert_eq!(tracking.x, 10);
    assert_eq!(
        tracking.on_frame(10, 0, 1920, 1080, 4, 1_800),
        FrameFollowUp { geometry_changed: false, publish_replaced: Some(4) }
    );
}

#[test]
fn a_lost_source_makes_the_session_wait_once() {
    let mut tracking = VisualEventTracking::new(SessionId(3), &source());
    assert_eq!(tracking.on_disconnected(true), None);
    assert_eq!(
        tracking.on_disconnected(false).as_deref(),
        Some("The selected visual source is no longer available. Stop visual translation or choose another source.")
    );
    assert_eq!(tracking.on_disconnected(false), None);
    tracking.on_started(&source());
    assert!(!tracking.source_closed);
    assert_eq!(
        tracking.on_source_closed(),
        "The selected visual source closed. Stop visual translation or choose another source."
    );
    assert!(tracking.source_closed);
}

#[test]
fn events_matter_only_until_the_session_stops() {
    let running = RuntimeSnapshot {
        session_id: Some(SessionId(3)),
        lifecycle: SessionLifecycle::Waiting,
        ..RuntimeSnapshot::default()
    };
    assert!(follows(&running, SessionId(3)));
    assert!(!follows(&running, SessionId(4)));
    let stopping = RuntimeSnapshot { lifecycle: SessionLifecycle::Stopping, ..running };
    assert!(!follows(&stopping, SessionId(3)));
}

#[test]
fn recognition_results_are_published_only_while_fresh_and_running() {
    let running = RuntimeSnapshot {
        session_id: Some(SessionId(5)),
        lifecycle: SessionLifecycle::Running,
        ..RuntimeSnapshot::default()
    };
    assert_eq!(result_age_micros(1_000, Some(4_500_000)), 4_499_000);
    assert_eq!(result_age_micros(9_000, Some(1_000)), 0);
    assert_eq!(result_age_micros(9_000, None), 0);
    assert_eq!(
        recognition_action(&running, SessionId(5), true, 10, true),
        RecognitionAction::Publish
    );
    assert_eq!(
        recognition_action(&running, SessionId(5), true, MAX_VISUAL_RESULT_AGE_MICROS + 1, true),
        RecognitionAction::DiscardStale
    );
    assert_eq!(
        recognition_action(&running, SessionId(5), true, MAX_VISUAL_RESULT_AGE_MICROS + 1, false),
        RecognitionAction::Publish
    );
    assert_eq!(
        recognition_action(&running, SessionId(5), false, 10, true),
        RecognitionAction::Hold
    );
    let waiting = RuntimeSnapshot { lifecycle: SessionLifecycle::Waiting, ..running.clone() };
    assert_eq!(
        recognition_action(&waiting, SessionId(5), true, 10, false),
        RecognitionAction::Hold
    );
    assert_eq!(
        recognition_action(&running, SessionId(6), true, 10, false),
        RecognitionAction::Stop
    );
    let stopping = RuntimeSnapshot { lifecycle: SessionLifecycle::Stopping, ..running };
    assert_eq!(
        recognition_action(&stopping, SessionId(5), true, 10, false),
        RecognitionAction::Stop
    );
    assert!(frames_lost_message().starts_with("The selected visual source is no longer"));
}

#[test]
fn results_more_than_a_second_and_a_half_behind_a_changed_source_are_suppressed() {
    let running = RuntimeSnapshot {
        session_id: Some(SessionId(8)),
        lifecycle: SessionLifecycle::Running,
        ..RuntimeSnapshot::default()
    };
    assert_eq!(MAX_VISUAL_RESULT_AGE_MICROS, 1_500_000);
    let age = result_age_micros(2_000_000, Some(3_500_001));
    assert_eq!(age, 1_500_001);
    assert_eq!(recognition_action(&running, SessionId(8), true, age, true), RecognitionAction::DiscardStale);
    let age = result_age_micros(2_000_000, Some(3_500_000));
    assert_eq!(recognition_action(&running, SessionId(8), true, age, true), RecognitionAction::Publish);
    assert_eq!(recognition_action(&running, SessionId(8), true, 1_500_001, false), RecognitionAction::Publish);
}
