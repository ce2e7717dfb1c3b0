//! The watch kept over a running session: it ends when the session is no
//! longer the supervisor's, gives up on a stop that takes too long, and
//! starts the cleanup of a failed session once.

use vstd::prelude::*;

use crate::contracts::{RuntimeSnapshot, SessionId, SessionLifecycle};

verus! {

/// How long, in milliseconds, a session may take to stop before the stop
/// is declared timed out.
pub const SHUTDOWN_TIMEOUT_MILLIS: u64 = 15000;

/// How often, in milliseconds, the supervisor is polled.
pub const SUPERVISOR_POLL_INTERVAL_MILLIS: u64 = 25;

/// What the watch does after one look at the supervisor.
#[derive(Clone, Copy, Debug, PartialEq, Eq, Structural)]
pub enum MonitorAction {
    /// The session is gone or replaced: the watch ends.
    Exit,
    /// The watch goes on, after declaring the stop timed out and starting
    /// the failed session's cleanup where it says so.
    Continue { stop_timed_out: bool, start_failure_cleanup: bool },
}

/// The watch over session `session_id`.
#[derive(Clone, Copy, Debug, PartialEq, Eq, Structural)]
pub struct SessionMonitor {
    pub session_id: SessionId,
    /// When the session was first seen stopping, in milliseconds, while it
    /// still is.
    pub stopping_since: Option<u64>,
    /// Whether the failed session's cleanup has been started.
    pub failure_cleanup_started: bool,
}

/// The watch after one look at the supervisor at time `now`, and what it
/// does.
pub open spec fn monitor_step(
    monitor: SessionMonitor,
    snapshot: RuntimeSnapshot,
    active: bool,
    now: u64,
) -> (SessionMonitor, MonitorAction) {
    if !active || snapshot.session_id != Some(monitor.session_id) {
        (monitor, MonitorAction::Exit)
    } else {
        let stopping = snapshot.lifecycle == SessionLifecycle::Stopping;
        let since = if stopping {
            match monitor.stopping_since {
                Some(since) => Some(since),
                None => Some(now),
            }
        } else {
            None
        };
        let timed_out = match since {
            Some(since) => now >= since && now - since >= SHUTDOWN_TIMEOUT_MILLIS,
            None => false,
        };
        let cleanup = snapshot.lifecycle == SessionLifecycle::Failed && !monitor.failure_cleanup_started;
        (
            SessionMonitor {
                session_id: monitor.session_id,
                stopping_since: since,
                failure_cleanup_started: monitor.failure_cleanup_started || cleanup,
            },
            MonitorAction::Continue { stop_timed_out: timed_out, start_failure_cleanup: cleanup },
        )
    }
}

impl SessionMonitor {
    pub fn new(session_id: SessionId) -> (monitor: Self)
        ensures
            monitor.session_id == session_id,
            monitor.stopping_since is None,
            !monitor.failure_cleanup_started,
    {
        SessionMonitor { session_id, stopping_since: None, failure_cleanup_started: false }
    }

    /// Takes one look at the supervisor, which shows `snapshot` and whether
    /// a session is active, at time `now` in milliseconds.
    pub fn observe(&mut self, snapshot: &RuntimeSnapshot, active: bool, now: u64) -> (action: MonitorAction)
        ensures
            (*final(self), action) == monitor_step(*old(self), *snapshot, active, now),
    {
        if !active || snapshot.session_id != Some(self.session_id) {
            return MonitorAction::Exit;
        }
        if snapshot.lifecycle == SessionLifecycle::Stopping {
            if self.stopping_since.is_none() {
                self.stopping_since = Some(now);
            }
        } else {
            self.stopping_since = None;
        }
        let stop_timed_out = match self.stopping_since {
            Some(since) => now >= since && now - since >= SHUTDOWN_TIMEOUT_MILLIS,
            None => false,
        };
        let start_failure_cleanup = snapshot.lifecycle == SessionLifecycle::Failed
            && !self.failure_cleanup_started;
        if start_failure_cleanup {
            self.failure_cleanup_started = true;
        }
        MonitorAction::Continue { stop_timed_out, start_failure_cleanup }
    }
}

/// The cleanup of a failed session is started at most once, however often
/// the watch sees it failed.
pub proof fn failure_cleanup_starts_once(
    monitor: SessionMonitor,
    first: RuntimeSnapshot,
    second: RuntimeSnapshot,
    active: bool,
    t1: u64,
    t2: u64,
)
    ensures
        ({
            let (after, action) = monitor_step(monitor, first, active, t1);
            let (_, again) = monitor_step(after, second, active, t2);
            action matches MonitorAction::Continue { start_failure_cleanup: true, .. }
                ==> !(again matches MonitorAction::Continue { start_failure_cleanup: true, .. })
        }),
{
}

/// A stop is declared timed out only after the session has been seen
/// stopping for `SHUTDOWN_TIMEOUT_MILLIS`, counted from the first look that
/// saw it stopping.
pub proof fn stops_time_out_only_after_the_grace(
    monitor: SessionMonitor,
    snapshot: RuntimeSnapshot,
    active: bool,
    now: u64,
)
    ensures
        monitor_step(monitor, snapshot, active, now).1 matches MonitorAction::Continue {
            stop_timed_out: true,
            ..
        } ==> (monitor.stopping_since matches Some(since) && snapshot.lifecycle
            == SessionLifecycle::Stopping && now - since >= SHUTDOWN_TIMEOUT_MILLIS),
{
}

} // verus!
