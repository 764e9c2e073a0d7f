//! Heartbeat supervisor: the timer-driven liveness decision. Every firing
//! reschedules the timer; traffic is only emitted while the session is
//! operational and one of the two directions has been quiet for at least
//! three quarters of the heartbeat interval.

use vstd::prelude::*;

verus! {

/// What one timer firing asks the session to do. The timer is rearmed
/// unconditionally: the supervisor runs for the life of the session.
pub struct HeartbeatPlan {
    /// Send a test request: nothing was sent for too long, so force the
    /// counterpart to answer and prove the channel alive.
    pub send_test_request: bool,
    /// Send an unsolicited heartbeat: nothing was received for too long, so
    /// pre-empt the counterpart's own liveness timeout.
    pub send_heartbeat: bool,
    /// Always true: arm the next one-shot timeout.
    pub reschedule: bool,
}

/// Milliseconds elapsed from `last` to `now`, clamped to zero when the
/// clock moved backwards and saturating when the difference overflows.
pub open spec fn spec_elapsed_ms(now: i64, last: i64) -> int {
    if now < last {
        0
    } else if now - last <= i64::MAX {
        now - last
    } else {
        u64::MAX as int
    }
}

/// The liveness threshold: three quarters of the heartbeat interval, in
/// milliseconds.
pub open spec fn spec_threshold_ms(interval_secs: int) -> int {
    interval_secs * 750
}

/// A direction is due for traffic once it has a recorded timestamp and has
/// been quiet for at least the threshold.
pub open spec fn spec_due(now: i64, last: Option<i64>, interval_secs: int) -> bool {
    match last {
        Some(l) => spec_elapsed_ms(now, l) >= spec_threshold_ms(interval_secs),
        None => false,
    }
}

/// Executable elapsed time, mirroring [`spec_elapsed_ms`].
fn elapsed_ms(now: i64, last: i64) -> (e: u64)
    ensures
        e as int == spec_elapsed_ms(now, last),
{
    if now < last {
        0
    } else {
        match now.checked_sub(last) {
            Some(d) => d as u64,
            None => u64::MAX,
        }
    }
}

/// Decides what one timer firing emits. The decision is a pure function of
/// the operational flag, the two last-traffic timestamps, the clock reading
/// and the interval, so firings that stay within the threshold are quiet,
/// whatever happened before.
pub fn plan_on_timeout(
    operational: bool,
    last_sent: Option<i64>,
    last_recv: Option<i64>,
    now: i64,
    interval_secs: i32,
) -> (p: HeartbeatPlan)
    requires
        0 <= interval_secs,
    ensures
        p.reschedule,
        p.send_test_request == (operational && spec_due(now, last_sent, interval_secs as int)),
        p.send_heartbeat == (operational && spec_due(now, last_recv, interval_secs as int)),
{
    let threshold: u64 = (interval_secs as u64) * 750;
    let send_test_request = operational && match last_sent {
        Some(last) => elapsed_ms(now, last) >= threshold,
        None => false,
    };
    let send_heartbeat = operational && match last_recv {
        Some(last) => elapsed_ms(now, last) >= threshold,
        None => false,
    };
    HeartbeatPlan { send_test_request, send_heartbeat, reschedule: true }
}

/// The rearm period: the timer fires at one quarter of the heartbeat
/// interval, in milliseconds.
pub open spec fn spec_timer_period_ms(interval_secs: int) -> int {
    (interval_secs / 4) * 1000
}

/// Executable mirror of [`spec_timer_period_ms`].
pub fn timer_period_ms(interval_secs: i32) -> (r: u64)
    requires
        0 <= interval_secs,
    ensures
        r as int == spec_timer_period_ms(interval_secs as int),
{
    ((interval_secs as u64) / 4) * 1000
}

} // verus!
