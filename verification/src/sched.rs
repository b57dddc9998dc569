//! Timing rules of the tick scheduler.
//!
//! The scheduler drives the active module at its self-declared rate, or
//! idles at a fixed rate when no module is loaded. After each iteration the
//! next deadline moves forward by one tick interval; a deadline that has
//! already passed (after a long suspend, say) restarts the schedule from the
//! current time instead of burning through a burst of catch-up ticks.
use vstd::prelude::*;

use vstd::multiset::Multiset;

use crate::telemetry::MAX_HISTOGRAM_VALUE;
use crate::telemetry::ProcessEntry;
use crate::telemetry::TickStats;
use crate::telemetry::ewma_next;
use crate::telemetry::hist_values;
use crate::timer::DebuggerTimerState;
use crate::timer::LogKind;
use crate::timer::LogLevel;
use crate::timer::logs_appended;

verus! {

/// Nanoseconds between two idle ticks when no module is loaded: 10 Hz.
pub const IDLE_TICK_RATE_NANOS: u64 = 100_000_000;

/// What one drive of the active module came to: the measured duration, what
/// the module reported about itself, and the update call's failure text, if
/// it failed.
pub struct TickReport {
    /// Wall-clock duration of the update call, in nanoseconds.
    pub elapsed_nanos: u64,
    /// The interval the module asks for until the next tick.
    pub tick_rate_nanos: u64,
    /// Memory footprint of the module instance, in bytes.
    pub memory_usage: usize,
    /// Outstanding handles held by the module.
    pub handles: u64,
    /// The processes the module observes.
    pub processes: Vec<ProcessEntry>,
    /// The description of a failed update; a failure is logged and does not
    /// stop the scheduling.
    pub error: Option<String>,
}

/// One scheduler iteration's bookkeeping, after the runtime shell drove the
/// active module — or found none and idled. The telemetry is published
/// whether or not the update call failed; a failure is appended to the log
/// as a runtime error and scheduling goes on. The returned rate paces the
/// next tick: the module's own, or the fixed idle rate.
pub fn apply_tick(
    stats: &mut TickStats,
    timer: &mut DebuggerTimerState,
    report: Option<TickReport>,
) -> (rate: u64)
    requires
        old(timer).wf(),
        report matches Some(r) ==> r.elapsed_nanos <= MAX_HISTOGRAM_VALUE,
    ensures
        final(timer).wf(),
        report is None ==> {
            &&& rate == IDLE_TICK_RATE_NANOS
            &&& final(stats).processes@ == Seq::<ProcessEntry>::empty()
            &&& final(stats).slowest_tick_nanos == old(stats).slowest_tick_nanos
            &&& final(stats).avg_tick_nanos == old(stats).avg_tick_nanos
            &&& final(stats).tick_rate_nanos == old(stats).tick_rate_nanos
            &&& hist_values(final(stats).tick_times) == hist_values(old(stats).tick_times)
            &&& *final(timer) == *old(timer)
        },
        report matches Some(r) ==> {
            &&& rate == r.tick_rate_nanos
            &&& final(stats).tick_rate_nanos == r.tick_rate_nanos
            &&& final(stats).memory_usage == r.memory_usage
            &&& final(stats).handles == r.handles
            &&& final(stats).processes@ == r.processes@
            &&& final(stats).slowest_tick_nanos == (if r.elapsed_nanos > old(
                stats,
            ).slowest_tick_nanos {
                r.elapsed_nanos
            } else {
                old(stats).slowest_tick_nanos
            })
            &&& final(stats).avg_tick_nanos == ewma_next(
                old(stats).avg_tick_nanos as nat,
                r.elapsed_nanos as nat,
            )
            &&& hist_values(final(stats).tick_times) == hist_values(old(stats).tick_times).insert(
                r.elapsed_nanos,
            )
            &&& r.error matches Some(m) ==> logs_appended(
                old(timer).logs@,
                final(timer).logs@,
                m@,
                LogKind::Runtime(LogLevel::Error),
            )
            &&& r.error is None ==> *final(timer) == *old(timer)
        },
{
    match report {
        Some(report) => {
            stats.record_tick(
                report.elapsed_nanos,
                report.tick_rate_nanos,
                report.memory_usage,
                report.handles,
                report.processes,
            );
            if let Some(message) = report.error {
                timer.log_runtime(message, LogLevel::Error);
            }
            report.tick_rate_nanos
        },
        None => {
            stats.record_idle();
            IDLE_TICK_RATE_NANOS
        },
    }
}

/// The deadline of the tick after one at deadline `next_tick`, seen at the
/// current instant `now` (all in nanoseconds of a monotonic clock).
pub open spec fn next_tick_after(next_tick: int, tick_rate: int, now: int) -> int {
    if now > next_tick + tick_rate {
        now
    } else {
        next_tick + tick_rate
    }
}

/// How long to sleep until that deadline; zero when it has already passed.
pub open spec fn sleep_until_next(next_tick: int, tick_rate: int, now: int) -> int {
    next_tick_after(next_tick, tick_rate, now) - now
}

/// Advance the schedule after one iteration: the new deadline and the sleep
/// that reaches it. A deadline that already passed is reset to `now`, so the
/// next tick fires immediately and the schedule restarts from there.
pub fn schedule_after_tick(next_tick: u64, tick_rate: u64, now: u64) -> (r: (u64, u64))
    requires
        next_tick + tick_rate <= u64::MAX,
    ensures
        r.0 == next_tick_after(next_tick as int, tick_rate as int, now as int),
        r.1 == sleep_until_next(next_tick as int, tick_rate as int, now as int),
        r.0 >= now,
{
    let target = next_tick + tick_rate;
    if now > target {
        (now, 0)
    } else {
        (target, target - now)
    }
}

/// A sleep that overran by more than one full tick interval causes exactly
/// one immediate tick, not a burst: the late deadline yields a zero sleep
/// and restarts the schedule at `now`, and the iteration after that sleeps
/// a full interval again.
pub proof fn lemma_overrun_gives_one_immediate_tick(next_tick: int, tick_rate: int, now: int)
    requires
        tick_rate > 0,
        now > next_tick + 2 * tick_rate,
    ensures
        sleep_until_next(next_tick, tick_rate, now) == 0,
        next_tick_after(next_tick, tick_rate, now) == now,
        sleep_until_next(now, tick_rate, now) == tick_rate,
{
}

} // verus!
