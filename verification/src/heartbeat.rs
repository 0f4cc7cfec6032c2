use vstd::prelude::*;
use crate::state::{StateStore, ConnectionStatus, StatusView, with_disconnected};

verus! {

/// Seconds between two liveness checks of one session.
pub const HEARTBEAT_CHECK_INTERVAL_SECS: u64 = 1;

/// A session is declared dead after this many seconds without a heartbeat.
pub const SILENCE_THRESHOLD_SECS: i64 = 5;

/// One liveness check, made at `now` seconds since the epoch, declares the
/// session dead exactly when the clock reading is usable (`now > 0`) and the
/// last heartbeat reference lies more than the silence threshold in the past.
/// A clock that could not be read, or that moved backward past the epoch, is
/// reported as `now <= 0` and never causes a timeout on that check.
pub open spec fn heartbeat_timed_out(now: int, last: int) -> bool {
    now > 0 && now - last > SILENCE_THRESHOLD_SECS as int
}

#[derive(Clone, Copy, PartialEq, Eq, Structural, Debug)]
pub enum TickOutcome {
    KeepWatching,
    TimedOut,
}

/// One tick of the heartbeat monitor's watchdog loop.
pub fn monitor_tick(now: i64, last_heartbeat: i64) -> (r: TickOutcome)
    ensures
        r is TimedOut <==> heartbeat_timed_out(now as int, last_heartbeat as int),
{
    let diff: i128 = now as i128 - last_heartbeat as i128;
    if now > 0 && diff > SILENCE_THRESHOLD_SECS as i128 {
        TickOutcome::TimedOut
    } else {
        TickOutcome::KeepWatching
    }
}

/// One check of the heartbeat monitor against the shared state. While the
/// silence threshold is not exceeded nothing happens and the monitor keeps
/// watching. On the first exceeded check the status is flipped to
/// disconnected — with exactly one notification, and none at all if some
/// other path already flagged it down — and the monitor stops, so no later
/// check can ever report the same silence again.
pub fn monitor_step(store: &mut StateStore, now: i64, last_heartbeat: i64) -> (r: (
    TickOutcome,
    Option<ConnectionStatus>,
))
    ensures
        r.0 is TimedOut <==> heartbeat_timed_out(now as int, last_heartbeat as int),
        final(store)@.config == old(store)@.config,
        r.0 is KeepWatching ==> final(store)@ == old(store)@ && r.1 is None,
        r.0 is TimedOut ==> {
            &&& final(store)@.status == with_disconnected(old(store)@.status)
            &&& !final(store)@.status.is_connected
            &&& (old(store)@.status.is_connected ==> (r.1 matches Some(n) && n@
                == final(store)@.status))
            &&& (!old(store)@.status.is_connected ==> r.1 is None && final(store)@ == old(
                store,
            )@)
        },
{
    match monitor_tick(now, last_heartbeat) {
        TickOutcome::KeepWatching => (TickOutcome::KeepWatching, None),
        TickOutcome::TimedOut => {
            let notify = store.mark_disconnected();
            (TickOutcome::TimedOut, notify)
        },
    }
}

/// Law: over a whole run of liveness checks, if every check sees a heartbeat
/// reference no older than the silence threshold, no check of the run ever
/// declares the session dead.
pub proof fn lemma_fresh_heartbeats_never_time_out(checks: Seq<(i64, i64)>)
    requires
        forall|i: int|
            0 <= i < checks.len() ==> (#[trigger] checks[i]).0 - checks[i].1
                <= SILENCE_THRESHOLD_SECS,
    ensures
        forall|i: int|
            0 <= i < checks.len() ==> !heartbeat_timed_out(
                (#[trigger] checks[i]).0 as int,
                checks[i].1 as int,
            ),
{
}

/// Law: flipping a status to disconnected is idempotent. Together with the
/// contract of [`monitor_step`] — a step on an already disconnected store
/// returns no snapshot — a silence can be reported to the sink at most
/// once, however often the transition is applied.
pub proof fn lemma_disconnect_notifies_once(s: StatusView)
    ensures
        !with_disconnected(s).is_connected,
        with_disconnected(with_disconnected(s)) == with_disconnected(s),
{
    assert(with_disconnected(with_disconnected(s)) =~= with_disconnected(s));
}

} // verus!
