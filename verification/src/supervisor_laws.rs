//! Properties of the supervisor that span several operations.

use vstd::prelude::*;

use crate::contracts::{
    conflict_error, startup_cancelled_error, ApplicationError, RuntimeSnapshot, SessionId,
    SessionLifecycle, SessionMode, StartSessionRequest,
};
use crate::contracts::{SessionHealthLevel, SessionProgress, SessionSource};
use crate::supervisor::{
    admits, can_publish, cleanup_rel, completion_failure, completion_fails, failed_snapshot, completion_rel, drain_rel, fail_rel, health_rel,
    mode_conflict_error, progress_rel, published_only, register_rel, running_rel, source_rel,
    start_rel, stop_for_mode_rel, stop_rel, unchanged, waiting_rel, SessionSupervisor,
    StartPermit, StopPermit, WorkerCompletion, WorkerLifetime, WorkerReporter, WorkerRole,
};

verus! {

/// Only one session owns the runtime: a start while a session is active is
/// refused with a conflict naming the active session, and changes nothing.
pub proof fn one_session_at_a_time(
    s: SessionSupervisor,
    request: StartSessionRequest,
    t: SessionSupervisor,
    result: Result<StartPermit, ApplicationError>,
)
    requires
        start_rel(s, request, t, result),
        s.active_session() is Some,
    ensures
        result matches Err(error) && conflict_error(error, s.active_session()->0),
        unchanged(s, t),
{
}

/// Stop is idempotent once stopping has begun: a second stop of the same
/// session reports that stopping was already under way, republishes nothing,
/// and hands back the snapshot of the first stop.
pub proof fn stop_is_idempotent(
    s1: SessionSupervisor,
    expected: Option<SessionId>,
    s2: SessionSupervisor,
    first: Result<StopPermit, ApplicationError>,
    s3: SessionSupervisor,
    second: Result<StopPermit, ApplicationError>,
)
    requires
        stop_rel(s1, expected, s2, first),
        first is Ok,
        stop_rel(s2, expected, s3, second),
    ensures
        second matches Ok(permit) && permit.already_stopping && permit.snapshot == first->Ok_0.snapshot,
        s3.current() == s2.current(),
        s2.current().lifecycle == SessionLifecycle::Stopping,
{
}

/// A stop requested during startup prevents a late transition to running:
/// marking the stopped session running is refused as a cancelled startup and
/// leaves the stopping snapshot in place.
pub proof fn stop_prevents_running(
    s1: SessionSupervisor,
    id: SessionId,
    s2: SessionSupervisor,
    stopped: Result<StopPermit, ApplicationError>,
    s3: SessionSupervisor,
    running: Result<RuntimeSnapshot, ApplicationError>,
)
    requires
        stop_rel(s1, Some(id), s2, stopped),
        stopped is Ok,
        running_rel(s2, id, s3, running),
    ensures
        running matches Err(error) && startup_cancelled_error(error, id),
        s3.current() == s2.current(),
{
}

/// A stop aimed at one mode never cancels a session of the other mode.
pub proof fn mode_stop_spares_other_mode(
    s: SessionSupervisor,
    mode: SessionMode,
    t: SessionSupervisor,
    result: Result<StopPermit, ApplicationError>,
)
    requires
        stop_for_mode_rel(s, mode, t, result),
        s.active_session() is Some,
        s.current().mode != Some(mode),
    ensures
        result matches Err(error) && mode_conflict_error(error, s.active_session()->0),
        unchanged(s, t),
        !t.stop_requested() || s.stop_requested(),
{
}

/// A session is released by its cleanup report only when none of its
/// registered workers is still running.
pub proof fn cleanup_waits_for_workers(
    s: SessionSupervisor,
    id: SessionId,
    outcome: Result<(), ApplicationError>,
    t: SessionSupervisor,
    result: Result<Option<RuntimeSnapshot>, ApplicationError>,
)
    requires
        cleanup_rel(s, id, outcome, t, result),
        s.active_session() is Some,
        t.active_session() is None,
    ensures
        s.workers().is_empty(),
{
}

/// A session is released by a worker's report only when cleanup has been
/// reported and that worker was the last one running.
pub proof fn last_worker_releases_session(
    s: SessionSupervisor,
    completion: WorkerCompletion,
    t: SessionSupervisor,
    published: Option<RuntimeSnapshot>,
)
    requires
        completion_rel(s, completion, t, published),
        s.active_session() is Some,
        t.active_session() is None,
    ensures
        s.cleanup_reported(),
        s.workers().remove(completion.worker_id).is_empty(),
{
}

/// Releasing a failed session keeps its failure snapshot: cleanup publishes
/// nothing new, so the failure revision survives until the next start.
pub proof fn failure_survives_cleanup(
    s: SessionSupervisor,
    id: SessionId,
    t: SessionSupervisor,
    result: Result<Option<RuntimeSnapshot>, ApplicationError>,
)
    requires
        cleanup_rel(s, id, Ok(()), t, result),
        s.current().lifecycle == SessionLifecycle::Failed,
    ensures
        t.current() == s.current(),
        result is Ok ==> result->Ok_0 is None,
{
}

/// A report from a worker of another session, or one that already reported,
/// changes nothing and publishes nothing.
pub proof fn stale_completion_is_ignored(
    s: SessionSupervisor,
    completion: WorkerCompletion,
    t: SessionSupervisor,
    published: Option<RuntimeSnapshot>,
)
    requires
        completion_rel(s, completion, t, published),
        s.active_session() != Some(completion.session_id) || !s.workers().contains_key(
            completion.worker_id,
        ),
    ensures
        unchanged(s, t),
        published is None,
{
}

/// One operation either leaves the published snapshot as it was or
/// publishes the next revision.
pub open spec fn advances(s: SessionSupervisor, t: SessionSupervisor) -> bool {
    t.current() == s.current() || t.current().revision == s.current().revision + 1
}

/// The runtime revision never goes back: every operation on the supervisor
/// either keeps the published snapshot or publishes one with the next
/// revision, and a refused operation keeps it.
pub proof fn revisions_only_advance()
    ensures
        forall|s: SessionSupervisor, r: StartSessionRequest, t: SessionSupervisor, res: Result<StartPermit, ApplicationError>|
            can_publish(s) && #[trigger] start_rel(s, r, t, res) ==> advances(s, t) && (res is Err ==> unchanged(s, t)),
        forall|s: SessionSupervisor, id: SessionId, p: SessionProgress, m: Option<String>, t: SessionSupervisor, res: Result<RuntimeSnapshot, ApplicationError>|
            #[trigger] progress_rel(s, id, p, m, t, res) ==> advances(s, t) && (res is Err ==> unchanged(s, t)),
        forall|s: SessionSupervisor, id: SessionId, src: SessionSource, t: SessionSupervisor, res: Result<RuntimeSnapshot, ApplicationError>|
            #[trigger] source_rel(s, id, src, t, res) ==> advances(s, t) && (res is Err ==> unchanged(s, t)),
        forall|s: SessionSupervisor, id: SessionId, t: SessionSupervisor, res: Result<RuntimeSnapshot, ApplicationError>|
            #[trigger] running_rel(s, id, t, res) ==> advances(s, t) && (res is Err ==> unchanged(s, t)),
        forall|s: SessionSupervisor, id: SessionId, m: Seq<char>, t: SessionSupervisor, res: Result<RuntimeSnapshot, ApplicationError>|
            #[trigger] waiting_rel(s, id, m, t, res) ==> advances(s, t) && (res is Err ==> unchanged(s, t)),
        forall|s: SessionSupervisor, id: SessionId, l: SessionHealthLevel, m: Option<String>, t: SessionSupervisor, res: Result<RuntimeSnapshot, ApplicationError>|
            #[trigger] health_rel(s, id, l, m, t, res) ==> advances(s, t) && (res is Err ==> unchanged(s, t)),
        forall|s: SessionSupervisor, id: SessionId, e: ApplicationError, t: SessionSupervisor, res: Result<RuntimeSnapshot, ApplicationError>|
            #[trigger] fail_rel(s, id, e, t, res) ==> advances(s, t) && (res is Err ==> unchanged(s, t)),
        forall|s: SessionSupervisor, x: Option<SessionId>, t: SessionSupervisor, res: Result<StopPermit, ApplicationError>|
            can_publish(s) && #[trigger] stop_rel(s, x, t, res) ==> advances(s, t) && (res is Err ==> unchanged(s, t)),
        forall|s: SessionSupervisor, mode: SessionMode, t: SessionSupervisor, res: Result<StopPermit, ApplicationError>|
            can_publish(s) && #[trigger] stop_for_mode_rel(s, mode, t, res) ==> advances(s, t) && (res is Err ==> unchanged(s, t)),
        forall|s: SessionSupervisor, id: SessionId, role: WorkerRole, life: WorkerLifetime, t: SessionSupervisor, res: Result<WorkerReporter, ApplicationError>|
            #[trigger] register_rel(s, id, role, life, t, res) ==> t.current() == s.current(),
        forall|s: SessionSupervisor, id: SessionId, o: Result<(), ApplicationError>, t: SessionSupervisor, res: Result<Option<RuntimeSnapshot>, ApplicationError>|
            can_publish(s) && #[trigger] cleanup_rel(s, id, o, t, res) ==> advances(s, t) && (res is Err ==> unchanged(s, t)),
        forall|s: SessionSupervisor, c: WorkerCompletion, t: SessionSupervisor, res: Option<RuntimeSnapshot>|
            can_publish(s) && #[trigger] completion_rel(s, c, t, res) ==> advances(s, t),
{
    assert forall|s: SessionSupervisor, id: SessionId, o: Result<(), ApplicationError>, t: SessionSupervisor, res: Result<Option<RuntimeSnapshot>, ApplicationError>|
        can_publish(s) && #[trigger] cleanup_rel(s, id, o, t, res) implies advances(s, t) && (res is Err ==> unchanged(s, t)) by {
        cleanup_step(s, id, o, t, res);
    }
    assert forall|s: SessionSupervisor, c: WorkerCompletion, t: SessionSupervisor, res: Option<RuntimeSnapshot>|
        can_publish(s) && #[trigger] completion_rel(s, c, t, res) implies advances(s, t) by {
        completion_step(s, c, t, res);
    }
}

proof fn cleanup_step(
    s: SessionSupervisor,
    id: SessionId,
    o: Result<(), ApplicationError>,
    t: SessionSupervisor,
    res: Result<Option<RuntimeSnapshot>, ApplicationError>,
)
    requires
        can_publish(s),
        cleanup_rel(s, id, o, t, res),
    ensures
        advances(s, t),
        res is Err ==> unchanged(s, t),
{
    match res {
        Err(_) => {},
        Ok(published) => match o {
            Err(reported) => {
                assert(t.current().revision == s.current().revision + 1);
            },
            Ok(()) => {
                if s.workers().is_empty() && s.current().lifecycle == SessionLifecycle::Stopping {
                    assert(t.current().revision == s.current().revision + 1);
                }
            },
        },
    }
}

/// Applying arrived completions publishes one revision after another: the
/// runtime revision moves forward by exactly the number of snapshots
/// published, each one past the last.
pub proof fn drained_revisions_follow_on(
    s: SessionSupervisor,
    completions: Seq<WorkerCompletion>,
    t: SessionSupervisor,
    published: Seq<RuntimeSnapshot>,
)
    requires
        drain_rel(s, completions, t, published),
        s.current().revision + completions.len() <= u32::MAX,
    ensures
        t.current().revision == s.current().revision + published.len(),
        forall|i: int| 0 <= i < published.len() ==> #[trigger] published[i].revision == s.current().revision + i + 1,
{
    let (states, outs) = choose|states: Seq<SessionSupervisor>, outs: Seq<Option<RuntimeSnapshot>>|
        {
            &&& states.len() == completions.len() + 1
            &&& outs.len() == completions.len()
            &&& states[0] == s
            &&& states.last() == t
            &&& forall|i: int|
                0 <= i < completions.len() ==> #[trigger] completion_rel(
                    states[i],
                    completions[i],
                    states[i + 1],
                    outs[i],
                )
            &&& published == published_only(outs)
        };
    drain_prefix(s, completions, states, outs, completions.len() as int);
    assert(outs.take(completions.len() as int) =~= outs);
}

proof fn drain_prefix(
    s: SessionSupervisor,
    completions: Seq<WorkerCompletion>,
    states: Seq<SessionSupervisor>,
    outs: Seq<Option<RuntimeSnapshot>>,
    n: int,
)
    requires
        0 <= n <= completions.len(),
        states.len() == completions.len() + 1,
        outs.len() == completions.len(),
        states[0] == s,
        s.current().revision + completions.len() <= u32::MAX,
        forall|i: int|
            0 <= i < completions.len() ==> #[trigger] completion_rel(
                states[i],
                completions[i],
                states[i + 1],
                outs[i],
            ),
    ensures
        states[n].current().revision == s.current().revision + published_only(outs.take(n)).len(),
        published_only(outs.take(n)).len() <= n,
        forall|i: int|
            0 <= i < published_only(outs.take(n)).len() ==> #[trigger] published_only(outs.take(n))[i].revision
                == s.current().revision + i + 1,
    decreases n,
{
    if n > 0 {
        drain_prefix(s, completions, states, outs, n - 1);
        let before = outs.take(n - 1);
        assert(outs.take(n).drop_last() =~= before);
        assert(outs.take(n).last() == outs[n - 1]);
        let i = n - 1;
        let prev = states[i];
        assert(completion_rel(states[i], completions[i], states[i + 1], outs[i]));
        assert(states[i + 1] == states[n]);
        assert(prev.current().revision == s.current().revision + published_only(before).len());
        assert(published_only(before).len() <= n - 1);
        assert(prev.current().revision < u32::MAX);
        assert(can_publish(prev));
        completion_step(prev, completions[n - 1], states[n], outs[n - 1]);
    } else {
        assert(outs.take(0) =~= Seq::<Option<RuntimeSnapshot>>::empty());
    }
}

proof fn completion_step(
    s: SessionSupervisor,
    c: WorkerCompletion,
    t: SessionSupervisor,
    out: Option<RuntimeSnapshot>,
)
    requires
        can_publish(s),
        completion_rel(s, c, t, out),
    ensures
        advances(s, t),
        out is None ==> t.current().revision == s.current().revision,
        out matches Some(snapshot) ==> snapshot == t.current() && t.current().revision == s.current().revision + 1,
{
    if admits(s, c.session_id) && s.workers().contains_key(c.worker_id) {
        let registration = s.workers()[c.worker_id];
        let lifecycle = s.current().lifecycle;
        if completion_fails(c, registration, lifecycle) {
            let error = choose|error: ApplicationError|
                #![trigger completion_failure(c, registration, lifecycle, error)]
                {
                    &&& completion_failure(c, registration, lifecycle, error)
                    &&& out matches Some(snapshot)
                    &&& failed_snapshot(s.current(), snapshot, error)
                    &&& t.current() == snapshot
                };
            assert(t.current().revision == s.current().revision + 1);
        }
    }
}

} // verus!
