//! Shared telemetry of the tick scheduler: tick timing, memory footprint,
//! handle count, and the snapshot of attached processes.
//!
//! The scheduler thread is the single writer of this state; every other
//! context only reads it. The cumulative tick-duration distribution is kept
//! in an outside histogram, reached only through the trusted wrappers here.
use vstd::multiset::Multiset;
use vstd::prelude::*;

verus! {

/// The cumulative tick-duration distribution, held in an outside histogram.
/// The wrapped collection is opaque here; its recorded samples are named by
/// `hist_values`, and only the trusted wrappers below touch it.
#[verifier::external_body]
pub struct TickHistogram {
    inner: hdrhistogram::Histogram<u64>,
}

/// The recorded samples of the histogram, as a multiset of nanosecond
/// values.
pub uninterp spec fn hist_values(h: TickHistogram) -> Multiset<u64>;

/// The largest value the histogram accepts: half of `i64::MAX`.
pub const MAX_HISTOGRAM_VALUE: u64 = 4_611_686_018_427_387_903;

impl TickHistogram {
    /// Relies on hdrhistogram::Histogram::new: a fresh auto-resizing
    /// histogram (one significant figure) holds no recorded values, and
    /// construction with one significant figure cannot fail.
    #[verifier::external_body]
    fn new() -> (h: Self)
        ensures
            hist_values(h) == Multiset::<u64>::empty(),
    {
        TickHistogram { inner: hdrhistogram::Histogram::<u64>::new(1).unwrap() }
    }

    /// Relies on hdrhistogram::Histogram::record: the sample joins the
    /// recorded values. With auto-resize on, recording a value no larger
    /// than `MAX_HISTOGRAM_VALUE` cannot fail.
    #[verifier::external_body]
    fn record(&mut self, value: u64)
        requires
            value <= MAX_HISTOGRAM_VALUE,
        ensures
            hist_values(*final(self)) == hist_values(*old(self)).insert(value),
    {
        let _ = self.inner.record(value);
    }

    /// Relies on hdrhistogram::Histogram::clear: every recorded value is
    /// removed.
    #[verifier::external_body]
    fn clear(&mut self)
        ensures
            hist_values(*final(self)) == Multiset::<u64>::empty(),
    {
        self.inner.clear();
    }

    /// Relies on hdrhistogram::Histogram::len: the total count of recorded
    /// samples.
    #[verifier::external_body]
    pub fn len(&self) -> (n: u64)
        ensures
            n == hist_values(*self).len(),
    {
        self.inner.len()
    }
}

/// One process the module currently observes.
#[derive(Debug)]
pub struct ProcessEntry {
    pub pid: u64,
    pub path: String,
}

/// The exponential moving average after one more sample, in integer
/// nanoseconds: one part in a thousand of the new sample joins the rest of
/// the old average.
pub open spec fn ewma_next(avg: nat, sample: nat) -> nat {
    ((999 * avg + sample) / 1000) as nat
}

/// Telemetry the scheduler publishes each tick.
pub struct TickStats {
    /// The interval the module asks for between update calls, in nanoseconds.
    pub tick_rate_nanos: u64,
    /// High-water mark of the tick duration.
    pub slowest_tick_nanos: u64,
    /// Exponential moving average of the tick duration.
    pub avg_tick_nanos: u64,
    /// Memory footprint of the module instance, in bytes.
    pub memory_usage: usize,
    /// Outstanding handles held by the module.
    pub handles: u64,
    /// Cumulative distribution of tick durations, in nanoseconds.
    pub tick_times: TickHistogram,
    /// The processes the module observes, wholesale-replaced every tick.
    pub processes: Vec<ProcessEntry>,
}

impl TickStats {
    /// Fresh, empty telemetry.
    pub fn new() -> (r: Self)
        ensures
            r.tick_rate_nanos == 0,
            r.slowest_tick_nanos == 0,
            r.avg_tick_nanos == 0,
            r.memory_usage == 0,
            r.handles == 0,
            hist_values(r.tick_times) == Multiset::<u64>::empty(),
            r.processes@ == Seq::<ProcessEntry>::empty(),
    {
        TickStats {
            tick_rate_nanos: 0,
            slowest_tick_nanos: 0,
            avg_tick_nanos: 0,
            memory_usage: 0,
            handles: 0,
            tick_times: TickHistogram::new(),
            processes: Vec::new(),
        }
    }

    /// Record one tick of the active module: raise the high-water mark if
    /// the tick was the slowest yet, fold the duration into the moving
    /// average and the distribution, and replace the published footprint,
    /// handle count, tick rate, and process snapshot.
    pub fn record_tick(
        &mut self,
        elapsed_nanos: u64,
        tick_rate_nanos: u64,
        memory_usage: usize,
        handles: u64,
        processes: Vec<ProcessEntry>,
    )
        requires
            elapsed_nanos <= MAX_HISTOGRAM_VALUE,
        ensures
            final(self).tick_rate_nanos == tick_rate_nanos,
            final(self).memory_usage == memory_usage,
            final(self).handles == handles,
            final(self).processes@ == processes@,
            final(self).slowest_tick_nanos == (if elapsed_nanos > old(self).slowest_tick_nanos {
                elapsed_nanos
            } else {
                old(self).slowest_tick_nanos
            }),
            final(self).avg_tick_nanos == ewma_next(
                old(self).avg_tick_nanos as nat,
                elapsed_nanos as nat,
            ),
            hist_values(final(self).tick_times) == hist_values(old(self).tick_times).insert(
                elapsed_nanos,
            ),
    {
        self.tick_rate_nanos = tick_rate_nanos;
        self.memory_usage = memory_usage;
        self.handles = handles;
        self.processes = processes;
        if elapsed_nanos > self.slowest_tick_nanos {
            self.slowest_tick_nanos = elapsed_nanos;
        }
        let wide: u128 = 999u128 * (self.avg_tick_nanos as u128) + (elapsed_nanos as u128);
        let averaged: u128 = wide / 1000;
        proof {
            assert(averaged <= u64::MAX);
        }
        self.avg_tick_nanos = averaged as u64;
        self.tick_times.record(elapsed_nanos);
    }

    /// Record one idle iteration with no module loaded: only the process
    /// snapshot is cleared.
    pub fn record_idle(&mut self)
        ensures
            final(self).processes@ == Seq::<ProcessEntry>::empty(),
            final(self).tick_rate_nanos == old(self).tick_rate_nanos,
            final(self).slowest_tick_nanos == old(self).slowest_tick_nanos,
            final(self).avg_tick_nanos == old(self).avg_tick_nanos,
            final(self).memory_usage == old(self).memory_usage,
            final(self).handles == old(self).handles,
            final(self).tick_times == old(self).tick_times,
    {
        self.processes.clear();
    }

    /// Reset everything to a clean slate, as every load-family operation
    /// demands.
    pub fn reset(&mut self)
        ensures
            final(self).tick_rate_nanos == 0,
            final(self).slowest_tick_nanos == 0,
            final(self).avg_tick_nanos == 0,
            final(self).memory_usage == 0,
            final(self).handles == 0,
            hist_values(final(self).tick_times) == Multiset::<u64>::empty(),
            final(self).processes@ == Seq::<ProcessEntry>::empty(),
    {
        self.tick_rate_nanos = 0;
        self.slowest_tick_nanos = 0;
        self.avg_tick_nanos = 0;
        self.memory_usage = 0;
        self.handles = 0;
        self.tick_times.clear();
        self.processes.clear();
    }
}

} // verus!
