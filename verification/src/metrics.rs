//! Counters and windowed samples of what was sent, and the readout computed
//! from them.
//!
//! Recording is cheap: it bumps counters and appends samples. The readout is
//! computed on demand by [`MetricsCollector::calculate_metrics`], which also
//! trims the sample queues, and is cached for [`MetricsCollector::get_metrics`].
//!
//! Rates are whole parts per million, so that `1_000_000` stands for one.
//! Counters stop at `u64::MAX` instead of starting over.

use crate::address::MacAddress;
use crate::clock::{duration_to_nanos, nanos_u64, wall_clock_millis, Stopwatch};
use crate::queue::{append_from, drain, queued_samples, samples_new, samples_push};
use crossbeam::queue::SegQueue;
use std::collections::HashMap;
use std::time::Duration;
use vstd::prelude::*;
use vstd::std_specs::iter::IteratorSpec;

verus! {

broadcast use vstd::std_specs::hash::group_hash_axioms;

/// One, in parts per million.
pub const PPM: u64 = 1_000_000;

/// The length of the window over which packets per second are counted, in
/// nanoseconds.
pub const WINDOW_NANOS: u64 = 1_000_000_000;

/// A point-in-time readout.
#[derive(Debug, Clone, Copy, PartialEq, Eq, Structural)]
pub struct Metrics {
    /// Injections recorded.
    pub packets_injected: u64,
    /// Injections recorded within the last second.
    pub packets_per_second: u64,
    /// Injections recorded as successful.
    pub successful_injections: u64,
    /// Successful injections out of all, in parts per million.
    pub success_rate_ppm: u64,
    /// Bytes recorded as sent.
    pub bytes_transmitted: u64,
    /// Mean of the channel utilization samples, in parts per million.
    pub channel_utilization_ppm: u64,
    /// Targets that are active.
    pub active_targets: usize,
    /// Mean latency of the samples, in whole microseconds.
    pub avg_latency_us: u64,
    /// The most packets per second that any readout has seen.
    pub peak_pps: u64,
    /// When the readout was made, in milliseconds since the Unix epoch.
    pub last_update: i64,
}

impl Metrics {
    /// The readout of a collector that has recorded nothing.
    pub open spec fn zeroed(last_update: i64) -> Metrics {
        Metrics {
            packets_injected: 0,
            packets_per_second: 0,
            successful_injections: 0,
            success_rate_ppm: 0,
            bytes_transmitted: 0,
            channel_utilization_ppm: 0,
            active_targets: 0,
            avg_latency_us: 0,
            peak_pps: 0,
            last_update,
        }
    }

    /// The readout of a collector that has recorded nothing, made at the
    /// given time.
    pub fn zeroed_at(last_update: i64) -> (m: Metrics)
        ensures
            m == Metrics::zeroed(last_update),
    {
        Metrics {
            packets_injected: 0,
            packets_per_second: 0,
            successful_injections: 0,
            success_rate_ppm: 0,
            bytes_transmitted: 0,
            channel_utilization_ppm: 0,
            active_targets: 0,
            avg_latency_us: 0,
            peak_pps: 0,
            last_update,
        }
    }
}

impl Default for Metrics {
    /// The readout of a collector that has recorded nothing, made now.
    fn default() -> (m: Metrics)
        ensures
            m == Metrics::zeroed(m.last_update),
    {
        Metrics::zeroed_at(wall_clock_millis())
    }
}

/// A count held to what a counter can show.
pub open spec fn saturate(count: nat) -> nat {
    if count > u64::MAX {
        u64::MAX as nat
    } else {
        count
    }
}

/// The sum of the samples.
pub open spec fn sum(samples: Seq<u64>) -> nat
    decreases samples.len(),
{
    if samples.len() == 0 {
        0
    } else {
        sum(samples.drop_last()) + samples.last() as nat
    }
}

/// The mean of the samples, rounded down; zero of none.
pub open spec fn mean(samples: Seq<u64>) -> nat {
    if samples.len() == 0 {
        0
    } else {
        sum(samples) / samples.len()
    }
}

/// The newest `window` samples, or all of them if there are fewer.
pub open spec fn most_recent(samples: Seq<u64>, window: nat) -> Seq<u64> {
    if samples.len() <= window {
        samples
    } else {
        samples.skip(samples.len() - window)
    }
}

/// The start of the one-second window that ends at `now`.
pub open spec fn window_start(now: u64) -> u64 {
    if now >= WINDOW_NANOS {
        (now - WINDOW_NANOS) as u64
    } else {
        0
    }
}

/// The test that a time is not before `start`.
pub open spec fn not_before(start: u64) -> spec_fn(u64) -> bool {
    |t: u64| t >= start
}

/// The times that fall within the one-second window that ends at `now`, in
/// the order they have.
pub open spec fn within_window(stamps: Seq<u64>, now: u64) -> Seq<u64> {
    stamps.filter(not_before(window_start(now)))
}

/// `part` out of `whole` in parts per million, rounded down; zero of nothing.
pub open spec fn rate_ppm(part: nat, whole: nat) -> nat {
    if whole == 0 {
        0
    } else {
        part * (PPM as nat) / whole
    }
}

/// A utilization sample held to one.
pub open spec fn clamp_ppm(sample: u64) -> u64 {
    if sample > PPM {
        PPM
    } else {
        sample
    }
}

/// Every sample is at most `bound`.
pub open spec fn all_at_most(samples: Seq<u64>, bound: u64) -> bool {
    forall|i: int| 0 <= i < samples.len() ==> samples[i] <= bound
}

/// A collector as its contracts speak of it.
pub struct CollectorState {
    /// Injections recorded.
    pub packets_injected: nat,
    /// Injections recorded as successful.
    pub successful_injections: nat,
    /// Bytes recorded as sent.
    pub bytes_transmitted: nat,
    /// Targets that are active.
    pub active_targets: nat,
    /// When each injection still remembered was recorded, oldest first, in
    /// nanoseconds on the collector's clock.
    pub packet_timestamps: Seq<u64>,
    /// The latency samples still remembered, oldest first, in nanoseconds.
    pub latency_samples: Seq<u64>,
    /// The channel utilization samples still remembered, oldest first, in
    /// parts per million.
    pub channel_samples: Seq<u64>,
    /// The readout last computed.
    pub last_metrics: Metrics,
    /// How many latency and utilization samples a readout leaves behind.
    pub window_size: nat,
}

impl CollectorState {
    /// No more successes than injections, counters within their range, and
    /// no utilization sample above one.
    pub open spec fn wf(self) -> bool {
        &&& self.successful_injections <= self.packets_injected <= u64::MAX
        &&& self.bytes_transmitted <= u64::MAX
        &&& self.active_targets <= usize::MAX
        &&& self.window_size <= usize::MAX
        &&& all_at_most(self.channel_samples, PPM)
    }

    /// A collector that has recorded nothing.
    pub open spec fn initial(window_size: nat, last_update: i64) -> CollectorState {
        CollectorState {
            packets_injected: 0,
            successful_injections: 0,
            bytes_transmitted: 0,
            active_targets: 0,
            packet_timestamps: Seq::empty(),
            latency_samples: Seq::empty(),
            channel_samples: Seq::empty(),
            last_metrics: Metrics::zeroed(last_update),
            window_size,
        }
    }

    /// The collector after one injection was recorded at `now`.
    pub open spec fn recorded(self, bytes: nat, success: bool, latency: u64, now: u64) -> CollectorState {
        CollectorState {
            packets_injected: saturate(self.packets_injected + 1),
            successful_injections: if success {
                saturate(self.successful_injections + 1)
            } else {
                self.successful_injections
            },
            bytes_transmitted: saturate(self.bytes_transmitted + bytes),
            packet_timestamps: self.packet_timestamps.push(now),
            latency_samples: self.latency_samples.push(latency),
            ..self
        }
    }

    /// The collector after a utilization sample was recorded.
    pub open spec fn sampled(self, utilization_ppm: u64) -> CollectorState {
        CollectorState {
            channel_samples: self.channel_samples.push(clamp_ppm(utilization_ppm)),
            ..self
        }
    }

    /// The readout computed at `now` on the collector's clock and
    /// `wall_millis` on the wall clock. The means are over every sample
    /// that is there, not only over those that the readout leaves behind.
    pub open spec fn snapshot(self, now: u64, wall_millis: i64) -> Metrics {
        let pps = within_window(self.packet_timestamps, now).len() as u64;
        Metrics {
            packets_injected: self.packets_injected as u64,
            packets_per_second: pps,
            successful_injections: self.successful_injections as u64,
            success_rate_ppm: rate_ppm(self.successful_injections, self.packets_injected) as u64,
            bytes_transmitted: self.bytes_transmitted as u64,
            channel_utilization_ppm: mean(self.channel_samples) as u64,
            active_targets: self.active_targets as usize,
            avg_latency_us: (mean(self.latency_samples) / 1000) as u64,
            peak_pps: if self.last_metrics.peak_pps >= pps {
                self.last_metrics.peak_pps
            } else {
                pps
            },
            last_update: wall_millis,
        }
    }

    /// The collector after a readout: the times outside the window are
    /// forgotten, and so are all but the newest `window_size` samples of each
    /// kind; the readout is cached.
    pub open spec fn calculated(self, now: u64, wall_millis: i64) -> CollectorState {
        CollectorState {
            packet_timestamps: within_window(self.packet_timestamps, now),
            latency_samples: most_recent(self.latency_samples, self.window_size),
            channel_samples: most_recent(self.channel_samples, self.window_size),
            last_metrics: self.snapshot(now, wall_millis),
            ..self
        }
    }
}

/// One injection as it is recorded.
pub struct Injection {
    /// Bytes sent.
    pub bytes: nat,
    /// Whether the send succeeded.
    pub success: bool,
    /// How long the send took, in nanoseconds.
    pub latency: u64,
    /// When it was recorded, on the collector's clock.
    pub at: u64,
}

/// The collector after the injections were recorded in order.
pub open spec fn after_injections(start: CollectorState, injections: Seq<Injection>) -> CollectorState
    decreases injections.len(),
{
    if injections.len() == 0 {
        start
    } else {
        let last = injections.last();
        after_injections(start, injections.drop_last()).recorded(
            last.bytes,
            last.success,
            last.latency,
            last.at,
        )
    }
}

/// The bytes that the injections sent in all.
pub open spec fn total_bytes(injections: Seq<Injection>) -> nat
    decreases injections.len(),
{
    if injections.len() == 0 {
        0
    } else {
        total_bytes(injections.drop_last()) + injections.last().bytes
    }
}

/// How many of the injections succeeded.
pub open spec fn successes(injections: Seq<Injection>) -> nat
    decreases injections.len(),
{
    if injections.len() == 0 {
        0
    } else {
        successes(injections.drop_last()) + if injections.last().success {
            1nat
        } else {
            0nat
        }
    }
}

/// After any injections are recorded, from nothing, the counters show how
/// many there were, how many succeeded and how many bytes they sent, each as
/// far as a counter can show; and so does every readout made then.
pub proof fn lemma_counters_exact(
    window_size: nat,
    last_update: i64,
    injections: Seq<Injection>,
    now: u64,
    wall_millis: i64,
)
    ensures
        ({
            let end = after_injections(
                CollectorState::initial(window_size, last_update),
                injections,
            );
            &&& end.packets_injected == saturate(injections.len())
            &&& end.successful_injections == saturate(successes(injections))
            &&& end.bytes_transmitted == saturate(total_bytes(injections))
            &&& end.snapshot(now, wall_millis).packets_injected == saturate(injections.len())
            &&& end.snapshot(now, wall_millis).bytes_transmitted == saturate(
                total_bytes(injections),
            )
            &&& end.calculated(now, wall_millis).packets_injected == end.packets_injected
            &&& end.calculated(now, wall_millis).bytes_transmitted == end.bytes_transmitted
            &&& injections.len() <= u64::MAX ==> end.snapshot(now, wall_millis).packets_injected
                == injections.len()
            &&& total_bytes(injections) <= u64::MAX ==> end.snapshot(
                now,
                wall_millis,
            ).bytes_transmitted == total_bytes(injections)
        }),
    decreases injections.len(),
{
    if injections.len() > 0 {
        lemma_counters_exact(window_size, last_update, injections.drop_last(), now, wall_millis);
    }
}

/// Recording keeps a collector well-formed.
pub proof fn lemma_recorded_wf(state: CollectorState, bytes: nat, success: bool, latency: u64, now: u64)
    requires
        state.wf(),
    ensures
        state.recorded(bytes, success, latency, now).wf(),
{
}

/// Injections recorded from nothing leave a well-formed collector, in which
/// no more successes are counted than injections.
pub proof fn lemma_after_injections_wf(
    window_size: nat,
    last_update: i64,
    injections: Seq<Injection>,
)
    requires
        window_size <= usize::MAX,
    ensures
        after_injections(CollectorState::initial(window_size, last_update), injections).wf(),
    decreases injections.len(),
{
    if injections.len() > 0 {
        lemma_after_injections_wf(window_size, last_update, injections.drop_last());
    }
}

/// The sum of samples that are each at most `bound` is at most as many times
/// `bound`.
proof fn lemma_sum_bounded(samples: Seq<u64>, bound: u64)
    requires
        all_at_most(samples, bound),
    ensures
        sum(samples) <= samples.len() * bound,
    decreases samples.len(),
{
    if samples.len() > 0 {
        lemma_sum_bounded(samples.drop_last(), bound);
        assert((samples.len() - 1) * bound + bound == samples.len() * bound) by (nonlinear_arith);
    }
}

/// The mean of samples that are each at most `bound` is at most `bound`.
proof fn lemma_mean_bounded(samples: Seq<u64>, bound: u64)
    requires
        all_at_most(samples, bound),
    ensures
        mean(samples) <= bound,
{
    if samples.len() > 0 {
        lemma_sum_bounded(samples, bound);
        let total = sum(samples) as int;
        let n = samples.len() as int;
        assert(total / n <= bound) by (nonlinear_arith)
            requires
                total <= n * bound,
                n > 0,
                total >= 0,
        ;
    }
}

/// A part of a whole is at most one.
proof fn lemma_rate_bounded(part: nat, whole: nat)
    requires
        part <= whole,
    ensures
        rate_ppm(part, whole) <= PPM,
{
    if whole > 0 {
        let scaled = (part * (PPM as nat)) as int;
        let w = whole as int;
        assert(scaled / w <= 1_000_000) by (nonlinear_arith)
            requires
                scaled == part * 1_000_000,
                part <= w,
                w > 0,
                part >= 0,
        ;
    }
}

/// Every readout of a well-formed collector keeps its rates within zero and
/// one; the success rate is zero while nothing is recorded; and the peak is
/// never under the present packets per second nor under an earlier peak.
pub proof fn lemma_snapshot_bounds(state: CollectorState, now: u64, wall_millis: i64)
    requires
        state.wf(),
    ensures
        state.snapshot(now, wall_millis).success_rate_ppm <= PPM,
        state.packets_injected == 0 ==> state.snapshot(now, wall_millis).success_rate_ppm == 0,
        state.snapshot(now, wall_millis).channel_utilization_ppm <= PPM,
        state.snapshot(now, wall_millis).peak_pps >= state.snapshot(
            now,
            wall_millis,
        ).packets_per_second,
        state.snapshot(now, wall_millis).peak_pps >= state.last_metrics.peak_pps,
        state.calculated(now, wall_millis).wf(),
{
    lemma_rate_bounded(state.successful_injections, state.packets_injected);
    lemma_mean_bounded(state.channel_samples, PPM);
}

/// The sum of the samples, which cannot overflow.
fn total(samples: &Vec<u64>) -> (t: u128)
    ensures
        t == sum(samples@),
        t <= samples@.len() * u64::MAX,
{
    let mut t: u128 = 0;
    let mut i: usize = 0;
    while i < samples.len()
        invariant
            i <= samples@.len(),
            t == sum(samples@.take(i as int)),
            t <= i * u64::MAX,
        decreases samples@.len() - i,
    {
        assert(samples@.take(i + 1).drop_last() =~= samples@.take(i as int));
        assert((i + 1) * u64::MAX <= 0x1_0000_0000_0000_0000 * 0xffff_ffff_ffff_ffff) by (nonlinear_arith)
            requires
                i + 1 <= 0x1_0000_0000_0000_0000,
        ;
        assert(i * u64::MAX + u64::MAX == (i + 1) * u64::MAX) by (nonlinear_arith);
        t = t + samples[i] as u128;
        i = i + 1;
    }
    assert(samples@.take(i as int) =~= samples@);
    t
}

/// The mean of the samples, rounded down; zero of none.
fn mean_of(samples: &Vec<u64>) -> (m: u64)
    ensures
        m == mean(samples@),
{
    if samples.len() == 0 {
        0
    } else {
        let t = total(samples);
        let n = samples.len() as u128;
        assert(t / n <= u64::MAX) by (nonlinear_arith)
            requires
                t <= n * u64::MAX,
                n > 0,
        ;
        (t / n) as u64
    }
}

/// Puts back the newest `window` of the samples.
fn requeue_most_recent(q: &mut SegQueue<u64>, samples: &Vec<u64>, window: usize)
    requires
        queued_samples(*old(q)).len() == 0,
    ensures
        queued_samples(*final(q)) == most_recent(samples@, window as nat),
{
    let from = if samples.len() <= window {
        0
    } else {
        samples.len() - window
    };
    append_from(q, samples, from);
    assert(queued_samples(*q) =~= most_recent(samples@, window as nat));
}

/// Puts back the times that are not before `start`, and counts them.
fn requeue_not_before(q: &mut SegQueue<u64>, stamps: &Vec<u64>, start: u64) -> (kept: usize)
    requires
        queued_samples(*old(q)).len() == 0,
    ensures
        queued_samples(*final(q)) == stamps@.filter(not_before(start)),
        kept == stamps@.filter(not_before(start)).len(),
{
    let mut kept: usize = 0;
    let mut i: usize = 0;
    assert(stamps@.take(0).filter(not_before(start)) =~= Seq::<u64>::empty()) by {
        reveal(Seq::filter);
    }
    while i < stamps.len()
        invariant
            i <= stamps@.len(),
            queued_samples(*q) == stamps@.take(i as int).filter(not_before(start)),
            kept == queued_samples(*q).len(),
            kept <= i,
        decreases stamps@.len() - i,
    {
        let t = stamps[i];
        proof {
            assert(stamps@.take(i + 1) =~= stamps@.take(i as int).push(t));
            stamps@.take(i as int).lemma_filter_push(t, not_before(start));
        }
        if t >= start {
            samples_push(q, t);
            kept = kept + 1;
        }
        i = i + 1;
    }
    assert(stamps@.take(i as int) =~= stamps@);
    kept
}

/// Counters and windowed samples of what was sent.
pub struct MetricsCollector {
    packets_injected: u64,
    successful_injections: u64,
    bytes_transmitted: u64,
    active_targets: usize,
    packet_timestamps: SegQueue<u64>,
    latency_samples: SegQueue<u64>,
    channel_samples: SegQueue<u64>,
    last_metrics: Metrics,
    window_size: usize,
    clock: Stopwatch,
}

impl View for MetricsCollector {
    type V = CollectorState;

    closed spec fn view(&self) -> CollectorState {
        CollectorState {
            packets_injected: self.packets_injected as nat,
            successful_injections: self.successful_injections as nat,
            bytes_transmitted: self.bytes_transmitted as nat,
            active_targets: self.active_targets as nat,
            packet_timestamps: queued_samples(self.packet_timestamps),
            latency_samples: queued_samples(self.latency_samples),
            channel_samples: queued_samples(self.channel_samples),
            last_metrics: self.last_metrics,
            window_size: self.window_size as nat,
        }
    }
}

impl MetricsCollector {
    /// The collector's state is well-formed.
    pub open spec fn wf(&self) -> bool {
        self@.wf()
    }

    /// A collector that has recorded nothing. Its readouts leave behind the
    /// newest `window_size` samples of each kind.
    pub fn new(window_size: usize) -> (c: MetricsCollector)
        ensures
            c.wf(),
            c@ == CollectorState::initial(window_size as nat, c@.last_metrics.last_update),
    {
        MetricsCollector {
            packets_injected: 0,
            successful_injections: 0,
            bytes_transmitted: 0,
            active_targets: 0,
            packet_timestamps: samples_new(),
            latency_samples: samples_new(),
            channel_samples: samples_new(),
            last_metrics: Metrics::zeroed_at(wall_clock_millis()),
            window_size,
            clock: Stopwatch::start(),
        }
    }

    /// Nanoseconds on the collector's clock, which starts when it is made.
    /// Nothing is claimed of a reading; what is done with one is stated at
    /// the functions whose names end in `_at`.
    pub fn now(&self) -> u64 {
        self.clock.elapsed_nanos()
    }

    /// Records one injection made at `now` on the collector's clock.
    pub fn record_injection_at(&mut self, bytes: usize, success: bool, latency: Duration, now: u64)
        requires
            old(self).wf(),
        ensures
            final(self).wf(),
            final(self)@ == old(self)@.recorded(bytes as nat, success, nanos_u64(latency), now),
    {
        self.packets_injected = self.packets_injected.saturating_add(1);
        self.bytes_transmitted = self.bytes_transmitted.saturating_add(bytes as u64);
        if success {
            self.successful_injections = self.successful_injections.saturating_add(1);
        }
        samples_push(&mut self.packet_timestamps, now);
        let sample = duration_to_nanos(&latency);
        samples_push(&mut self.latency_samples, sample);
    }

    /// Records one injection made now. Whatever the clock reads, this is
    /// `record_injection_at` on that reading.
    pub fn record_injection(&mut self, bytes: usize, success: bool, latency: Duration)
        requires
            old(self).wf(),
        ensures
            final(self).wf(),
            exists|now: u64|
                final(self)@ == #[trigger] old(self)@.recorded(
                    bytes as nat,
                    success,
                    nanos_u64(latency),
                    now,
                ),
    {
        let now = self.clock.elapsed_nanos();
        self.record_injection_at(bytes, success, latency, now);
    }

    /// Records a channel utilization sample in parts per million; one above
    /// a million counts as a million.
    pub fn record_channel_utilization(&mut self, utilization_ppm: u64)
        requires
            old(self).wf(),
        ensures
            final(self).wf(),
            final(self)@ == old(self)@.sampled(utilization_ppm),
    {
        let sample = if utilization_ppm > PPM {
            PPM
        } else {
            utilization_ppm
        };
        samples_push(&mut self.channel_samples, sample);
    }

    /// Sets the number of active targets.
    pub fn set_active_targets(&mut self, count: usize)
        requires
            old(self).wf(),
        ensures
            final(self).wf(),
            final(self)@ == (CollectorState { active_targets: count as nat, ..old(self)@ }),
    {
        self.active_targets = count;
    }

    /// Computes the readout at `now` on the collector's clock and
    /// `wall_millis` on the wall clock, trims the sample queues and caches the
    /// readout.
    pub fn calculate_metrics_at(&mut self, now: u64, wall_millis: i64) -> (m: Metrics)
        requires
            old(self).wf(),
        ensures
            final(self).wf(),
            m == old(self)@.snapshot(now, wall_millis),
            final(self)@ == old(self)@.calculated(now, wall_millis),
            m.success_rate_ppm <= PPM,
            m.channel_utilization_ppm <= PPM,
            old(self)@.packets_injected == 0 ==> m.success_rate_ppm == 0,
    {
        proof {
            lemma_snapshot_bounds(self@, now, wall_millis);
            lemma_rate_bounded(self@.successful_injections, self@.packets_injected);
            lemma_mean_bounded(self@.channel_samples, PPM);
        }
        let start = now.saturating_sub(WINDOW_NANOS);
        let stamps = drain(&mut self.packet_timestamps);
        let recent = requeue_not_before(&mut self.packet_timestamps, &stamps, start);

        let latencies = drain(&mut self.latency_samples);
        let mean_latency = mean_of(&latencies);
        requeue_most_recent(&mut self.latency_samples, &latencies, self.window_size);

        let utilizations = drain(&mut self.channel_samples);
        let mean_utilization = mean_of(&utilizations);
        requeue_most_recent(&mut self.channel_samples, &utilizations, self.window_size);

        let success_rate = if self.packets_injected > 0 {
            let scaled: u128 = self.successful_injections as u128 * PPM as u128;
            (scaled / self.packets_injected as u128) as u64
        } else {
            0
        };
        let pps = recent as u64;
        let metrics = Metrics {
            packets_injected: self.packets_injected,
            packets_per_second: pps,
            successful_injections: self.successful_injections,
            success_rate_ppm: success_rate,
            bytes_transmitted: self.bytes_transmitted,
            channel_utilization_ppm: mean_utilization,
            active_targets: self.active_targets,
            avg_latency_us: mean_latency / 1000,
            peak_pps: if self.last_metrics.peak_pps >= pps {
                self.last_metrics.peak_pps
            } else {
                pps
            },
            last_update: wall_millis,
        };
        self.last_metrics = metrics;
        metrics
    }

    /// Computes the readout now. Whatever the clocks read, this is
    /// `calculate_metrics_at` on those readings.
    pub fn calculate_metrics(&mut self) -> (m: Metrics)
        requires
            old(self).wf(),
        ensures
            final(self).wf(),
            exists|now: u64, wall_millis: i64|
                m == #[trigger] old(self)@.snapshot(now, wall_millis) && final(self)@ == old(self)@.calculated(now, wall_millis),
            m.packets_injected == old(self)@.packets_injected,
            m.bytes_transmitted == old(self)@.bytes_transmitted,
            m.success_rate_ppm <= PPM,
            m.channel_utilization_ppm <= PPM,
            old(self)@.packets_injected == 0 ==> m.success_rate_ppm == 0,
    {
        let now = self.clock.elapsed_nanos();
        let wall_millis = wall_clock_millis();
        self.calculate_metrics_at(now, wall_millis)
    }

    /// The readout last computed, without computing anew.
    pub fn get_metrics(&self) -> (m: Metrics)
        ensures
            m == self@.last_metrics,
    {
        self.last_metrics
    }

    /// Forgets everything recorded: the counters are zero, the queues empty
    /// and the cached readout is that of a new collector.
    pub fn reset(&mut self)
        requires
            old(self).wf(),
        ensures
            final(self).wf(),
            final(self)@ == CollectorState::initial(
                old(self)@.window_size,
                final(self)@.last_metrics.last_update,
            ),
    {
        self.packets_injected = 0;
        self.successful_injections = 0;
        self.bytes_transmitted = 0;
        self.active_targets = 0;
        let _ = drain(&mut self.packet_timestamps);
        let _ = drain(&mut self.latency_samples);
        let _ = drain(&mut self.channel_samples);
        self.last_metrics = Metrics::zeroed_at(wall_clock_millis());
    }
}

/// The success rate after one more outcome: nine parts of the old rate and
/// one part of the outcome, rounded down.
pub open spec fn ema_step(rate_ppm: nat, success: bool) -> nat {
    (rate_ppm * 9 + if success {
        PPM as nat
    } else {
        0nat
    }) / 10
}

/// A rate within zero and one stays there, and moves toward the outcome: a
/// success never lowers it and a failure never raises it.
pub proof fn lemma_ema_step(rate_ppm: nat, success: bool)
    requires
        rate_ppm <= PPM,
    ensures
        ema_step(rate_ppm, success) <= PPM,
        success ==> ema_step(rate_ppm, success) >= rate_ppm,
        !success ==> ema_step(rate_ppm, success) <= rate_ppm,
{
}

/// What is known of one target.
#[derive(Debug, Clone, Copy)]
pub struct TargetMetrics {
    /// The target's address.
    pub mac_address: MacAddress,
    /// Activity records made for the target.
    pub packets_sent: u64,
    /// Exponentially weighted success rate, in parts per million.
    pub success_rate_ppm: u64,
    /// When activity was last recorded, in milliseconds since the Unix epoch.
    pub last_seen: i64,
}

impl TargetMetrics {
    /// What is known of a target after one more activity record: of a target
    /// not seen before, the record is its first, made on a rate of zero.
    pub open spec fn after_activity(
        prior: Option<TargetMetrics>,
        mac: MacAddress,
        success: bool,
        wall_millis: i64,
    ) -> TargetMetrics {
        let base = match prior {
            Some(known) => known,
            None => TargetMetrics { mac_address: mac, packets_sent: 0, success_rate_ppm: 0, last_seen: wall_millis },
        };
        TargetMetrics {
            mac_address: base.mac_address,
            packets_sent: saturate(base.packets_sent as nat + 1) as u64,
            success_rate_ppm: ema_step(base.success_rate_ppm as nat, success) as u64,
            last_seen: wall_millis,
        }
    }
}

/// Per-target metrics, found by address.
pub struct TargetMetricsCollector {
    targets: HashMap<u64, TargetMetrics>,
}

impl TargetMetricsCollector {
    /// What is known of each target, by the key of its address.
    pub closed spec fn targets(&self) -> Map<u64, TargetMetrics> {
        self.targets@
    }

    /// What is known of the target with the given address, if anything.
    pub open spec fn known(&self, mac: MacAddress) -> Option<TargetMetrics> {
        if self.targets().contains_key(mac.spec_key() as u64) {
            Some(self.targets()[mac.spec_key() as u64])
        } else {
            None
        }
    }

    /// Every target is filed under its own address, with a rate within zero
    /// and one.
    pub open spec fn wf(&self) -> bool {
        &&& self.targets().dom().finite()
        &&& forall|k: u64| #[trigger]
            self.targets().contains_key(k) ==> self.targets()[k].mac_address.spec_key() == k
                && self.targets()[k].success_rate_ppm <= PPM
    }

    /// A collector that knows no target.
    pub fn new() -> (c: TargetMetricsCollector)
        ensures
            c.wf(),
            c.targets() == Map::<u64, TargetMetrics>::empty(),
    {
        TargetMetricsCollector { targets: HashMap::new() }
    }

    /// Records activity for a target at `wall_millis` on the wall clock: one
    /// more packet, seen at that time, and the success rate moved one step
    /// toward the outcome.
    pub fn record_target_activity_at(&mut self, mac: MacAddress, success: bool, wall_millis: i64)
        requires
            old(self).wf(),
        ensures
            final(self).wf(),
            final(self).targets() == old(self).targets().insert(
                mac.spec_key() as u64,
                TargetMetrics::after_activity(old(self).known(mac), mac, success, wall_millis),
            ),
    {
        let key = mac.key();
        let base = match self.targets.get(&key) {
            Some(known) => *known,
            None => TargetMetrics { mac_address: mac, packets_sent: 0, success_rate_ppm: 0, last_seen: wall_millis },
        };
        proof {
            lemma_ema_step(base.success_rate_ppm as nat, success);
        }
        let outcome: u64 = if success {
            PPM
        } else {
            0
        };
        let updated = TargetMetrics {
            mac_address: base.mac_address,
            packets_sent: base.packets_sent.saturating_add(1),
            success_rate_ppm: (base.success_rate_ppm * 9 + outcome) / 10,
            last_seen: wall_millis,
        };
        self.targets.insert(key, updated);
    }

    /// Records activity for a target now. Whatever the clock reads, this is
    /// `record_target_activity_at` on that reading.
    pub fn record_target_activity(&mut self, mac: MacAddress, success: bool)
        requires
            old(self).wf(),
        ensures
            final(self).wf(),
            exists|wall_millis: i64|
                final(self).targets() == old(self).targets().insert(
                    mac.spec_key() as u64,
                    #[trigger] TargetMetrics::after_activity(
                        old(self).known(mac),
                        mac,
                        success,
                        wall_millis,
                    ),
                ),
    {
        let wall_millis = wall_clock_millis();
        self.record_target_activity_at(mac, success, wall_millis);
    }

    /// What is known of every target, in no particular order.
    pub fn get_all_targets(&self) -> (all: Vec<TargetMetrics>)
        requires
            self.wf(),
        ensures
            all@.to_set() == self.targets().values(),
            all@.len() == self.targets().dom().len(),
    {
        let mut all: Vec<TargetMetrics> = Vec::new();
        let ghost whole = self.targets.values().remaining().unref();
        for target in it: self.targets.values()
            invariant
                it.seq().unref() == whole,
                all@ == whole.take(it.index()),
        {
            all.push(*target);
            assert(all@ =~= whole.take(it.index() + 1));
        }
        assert(all@ =~= whole);
        all
    }

    /// What is known of the target with the given address, if anything.
    pub fn get_target_metrics(&self, mac: MacAddress) -> (r: Option<TargetMetrics>)
        requires
            self.wf(),
        ensures
            r == self.known(mac),
    {
        let key = mac.key();
        match self.targets.get(&key) {
            Some(known) => Some(*known),
            None => None,
        }
    }
}

} // verus!
