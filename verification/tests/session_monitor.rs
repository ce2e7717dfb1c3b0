use prollyglot_runtime::contracts::{RuntimeSnapshot, SessionId, SessionLifecycle};
use prollyglot_runtime::session_monitor::{MonitorAction, SessionMonitor, SHUTDOWN_TIMEOUT_MILLIS};
use prollyglot_runtime::startup::{step_error, SessionStep};
use prollyglot_runtime::contracts::{ApplicationErrorCode, RecoveryAction};

fn snapshot(session: u32, lifecycle: SessionLifecycle) -> RuntimeSnapshot {
    RuntimeSnapshot { session_id: Some(SessionId(session)), lifecycle, ..RuntimeSnapshot::default() }
}

#[test]
fn the_watch_ends_with_its_session() {
    let mut monitor = SessionMonitor::new(SessionId(3));
    assert_eq!(
        monitor.observe(&snapshot(3, SessionLifecycle::Running), true, 0),
        MonitorAction::Continue { stop_timed_out: false, start_failure_cleanup: false }
    );
    assert_eq!(monitor.observe(&snapshot(4, SessionLifecycle::Running), true, 10), MonitorAction::Exit);
    assert_eq!(monitor.observe(&snapshot(3, SessionLifecycle::Running), false, 10), MonitorAction::Exit);
}

#[test]
fn a_slow_stop_times_out_after_the_grace() {
    let mut monitor = SessionMonitor::new(SessionId(3));
    let stopping = snapshot(3, SessionLifecycle::Stopping);
    assert_eq!(
        monitor.observe(&stopping, true, 1_000),
        MonitorAction::Continue { stop_timed_out: false, start_failure_cleanup: false }
    );
    assert_eq!(
        monitor.observe(&stopping, true, 1_000 + SHUTDOWN_TIMEOUT_MILLIS - 1),
        MonitorAction::Continue { stop_timed_out: false, start_failure_cleanup: false }
    );
    assert_eq!(
        monitor.observe(&stopping, true, 1_000 + SHUTDOWN_TIMEOUT_MILLIS),
        MonitorAction::Continue { stop_timed_out: true, start_failure_cleanup: false }
    );
    // Seen running again, the grace starts over.
    monitor.observe(&snapshot(3, SessionLifecycle::Running), true, 20_000);
    assert_eq!(monitor.stopping_since, None);
    assert_eq!(
        monitor.observe(&stopping, true, 30_000),
        MonitorAction::Continue { stop_timed_out: false, start_failure_cleanup: false }
    );
}

#[test]
fn a_failed_session_is_cleaned_up_once() {
    let mut monitor = SessionMonitor::new(SessionId(3));
    let failed = snapshot(3, SessionLifecycle::Failed);
    assert_eq!(
        monitor.observe(&failed, true, 0),
        MonitorAction::Continue { stop_timed_out: false, start_failure_cleanup: true }
    );
    assert_eq!(
        monitor.observe(&failed, true, 25),
        MonitorAction::Continue { stop_timed_out: false, start_failure_cleanup: false }
    );
    let error = step_error(SessionStep::SpawnSessionWorker, "no threads", Some(SessionId(3)));
    assert_eq!(error.code, ApplicationErrorCode::WorkerExited);
    assert_eq!(error.suggested_action, RecoveryAction::RestartApplication);
}
