//! The injection engine: control commands in, work out to the workers.
//!
//! The engine owns a buffer pool, a metrics collector, a bounded queue of
//! control commands and an unbounded queue of work. Everything here is a step
//! that one party takes with the engine to itself: a caller submits a command,
//! the dispatcher handles the next command, a worker asks for work and reports
//! how a send went, the publisher makes a readout. Who runs those steps, on
//! which threads and behind which lock, is for the program around the engine
//! to decide; so is the sending itself.

use crate::address::MacAddress;
use crate::buffer::{Buffer, BufferStats, PacketBuffer, PoolState};
use crate::clock::{nanos_u64, wall_clock_millis};
use crate::error::DeauthError;
use crate::metrics::{CollectorState, Metrics, MetricsCollector};
pub use crate::rate_limiter::RateLimiter;
use crossbeam::queue::SegQueue;
use std::collections::VecDeque;
use std::time::Duration;
use vstd::prelude::*;
use vstd::string::StringExecFns;

verus! {

/// How many control commands can wait for the dispatcher.
pub const CONTROL_CHANNEL_CAPACITY: usize = 100;

/// How many readouts a slow subscriber can fall behind before it misses one.
pub const METRICS_CHANNEL_CAPACITY: usize = 10;

/// The time between two published readouts, in milliseconds.
pub const METRICS_INTERVAL_MILLIS: u64 = 100;

/// One unit of injection work.
#[derive(Debug, Clone, Copy)]
pub struct InjectionRequest {
    /// The station addressed.
    pub target: MacAddress,
    /// The access point it is associated with.
    pub access_point: MacAddress,
    /// The protocol's reason code.
    pub reason_code: u16,
    /// How many times to repeat.
    pub count: u32,
    /// The time between repeats.
    pub interval: Duration,
}

/// The parameters an engine is made with.
#[derive(Debug, Clone, Copy)]
pub struct EngineConfig {
    /// Number of workers.
    pub worker_threads: usize,
    /// The most sends per second that one worker makes.
    pub max_rate_per_worker: u32,
    /// Number of buffers in the pool.
    pub buffer_pool_size: usize,
    /// Capacity of each buffer, in bytes.
    pub buffer_size: usize,
    /// How many samples a readout leaves behind.
    pub metrics_window: usize,
    /// Whether workers hold themselves to `max_rate_per_worker`.
    pub rate_limiting: bool,
    /// The most targets at once.
    pub max_targets: usize,
}

impl EngineConfig {
    /// The configuration that `default` gives.
    pub open spec fn spec_default() -> EngineConfig {
        EngineConfig {
            worker_threads: 4,
            max_rate_per_worker: 1000,
            buffer_pool_size: 100,
            buffer_size: 2048,
            metrics_window: 100,
            rate_limiting: true,
            max_targets: 50,
        }
    }

    /// Whether an engine can be made with the configuration: the pool has at
    /// least one buffer, pool and buffers can be allocated, and a worker's
    /// rate is not zero.
    pub open spec fn valid(&self) -> bool {
        &&& 0 < self.buffer_pool_size
        &&& self.buffer_pool_size * 64 <= isize::MAX
        &&& self.buffer_size <= isize::MAX
        &&& 0 < self.max_rate_per_worker
    }

    /// Whether an engine can be made with the configuration.
    pub fn is_valid(&self) -> (v: bool)
        ensures
            v == self.valid(),
    {
        0 < self.buffer_pool_size && self.buffer_pool_size <= (isize::MAX as usize) / 64
            && self.buffer_size <= isize::MAX as usize && 0 < self.max_rate_per_worker
    }

    /// The least time between two sends of one worker, in nanoseconds: the
    /// whole microseconds that one send takes at `max_rate_per_worker` sends a
    /// second.
    pub open spec fn min_interval_nanos(&self) -> nat
        recommends
            self.max_rate_per_worker > 0,
    {
        ((1_000_000int / (self.max_rate_per_worker as int)) * 1000) as nat
    }

    /// How long a worker waits before a send when `elapsed_nanos` have
    /// passed since its last one: what is still missing to the least
    /// interval, and nothing where rate limiting is off.
    pub open spec fn spec_send_delay_nanos(&self, elapsed_nanos: u64) -> nat
        recommends
            self.max_rate_per_worker > 0,
    {
        if self.rate_limiting && elapsed_nanos < self.min_interval_nanos() {
            (self.min_interval_nanos() - elapsed_nanos) as nat
        } else {
            0
        }
    }

    /// How long a worker waits before a send when `elapsed_nanos` have
    /// passed since its last one.
    pub fn send_delay_nanos(&self, elapsed_nanos: u64) -> (delay: u64)
        requires
            self.max_rate_per_worker > 0,
        ensures
            delay == self.spec_send_delay_nanos(elapsed_nanos),
            delay <= 1_000_000_000,
    {
        let min_interval: u64 = (1_000_000 / self.max_rate_per_worker as u64) * 1000;
        if self.rate_limiting && elapsed_nanos < min_interval {
            min_interval - elapsed_nanos
        } else {
            0
        }
    }
}

/// A worker's own pacing: it remembers when it last sent.
pub struct WorkerThrottle {
    config: EngineConfig,
    last_injection: u64,
}

impl WorkerThrottle {
    /// The configuration that sets the pace.
    pub closed spec fn spec_config(&self) -> EngineConfig {
        self.config
    }

    /// When the worker last sent, in nanoseconds on the engine's clock.
    pub closed spec fn last_injection(&self) -> u64 {
        self.last_injection
    }

    /// The wait before a send at `now`: what the time since the last send,
    /// zero where the clock went back, leaves missing to the least interval.
    pub open spec fn spec_delay_nanos(&self, now: u64) -> nat {
        self.spec_config().spec_send_delay_nanos(
            if now >= self.last_injection() {
                (now - self.last_injection()) as u64
            } else {
                0
            },
        )
    }

    /// The pacing of a worker that starts at `now`. The start counts as a
    /// send: the first send waits like any other.
    pub fn new(config: &EngineConfig, now: u64) -> (throttle: WorkerThrottle)
        requires
            config.max_rate_per_worker > 0,
        ensures
            throttle.spec_config() == *config,
            throttle.last_injection() == now,
    {
        WorkerThrottle { config: *config, last_injection: now }
    }

    /// How long the worker waits before a send at `now`, in nanoseconds.
    pub fn delay_nanos(&self, now: u64) -> (delay: u64)
        requires
            self.spec_config().max_rate_per_worker > 0,
        ensures
            delay == self.spec_delay_nanos(now),
            delay <= self.spec_config().min_interval_nanos(),
    {
        self.config.send_delay_nanos(now.saturating_sub(self.last_injection))
    }

    /// Notes that the worker was done with a send at `now`.
    pub fn mark_sent(&mut self, now: u64)
        ensures
            final(self).spec_config() == old(self).spec_config(),
            final(self).last_injection() == now,
    {
        self.last_injection = now;
    }
}

/// A worker that has waited as long as it was told need not wait longer.
pub proof fn lemma_delay_suffices(throttle: WorkerThrottle, now: u64)
    requires
        throttle.spec_config().max_rate_per_worker > 0,
        throttle.last_injection() <= now,
        now + throttle.spec_delay_nanos(now) <= u64::MAX,
    ensures
        throttle.spec_delay_nanos((now + throttle.spec_delay_nanos(now)) as u64) == 0,
{
}

impl Default for EngineConfig {
    /// Four workers of a thousand sends a second, a hundred buffers of 2048
    /// bytes, a window of a hundred samples, rate limiting on, fifty targets.
    fn default() -> (c: EngineConfig)
        ensures
            c == EngineConfig::spec_default(),
            c.valid(),
    {
        EngineConfig {
            worker_threads: 4,
            max_rate_per_worker: 1000,
            buffer_pool_size: 100,
            buffer_size: 2048,
            metrics_window: 100,
            rate_limiting: true,
            max_targets: 50,
        }
    }
}

/// A message on the control channel.
#[derive(Debug, Clone, Copy)]
pub enum EngineCommand {
    /// Put the request on the work queue.
    StartInjection(InjectionRequest),
    /// Have the workers empty the work queue without sending.
    StopInjection,
    /// Stop the engine.
    Shutdown,
    /// Make a readout and reply with it.
    GetMetrics,
}

/// A readout as it is published.
#[derive(Debug, Clone, Copy)]
pub struct MetricsUpdate {
    /// When the readout was made, in nanoseconds on the engine's clock.
    pub timestamp: u64,
    /// The readout.
    pub metrics: Metrics,
}

/// Where an engine is in its life.
#[derive(Debug, Clone, Copy, PartialEq, Eq, Structural)]
pub enum EnginePhase {
    /// Made, not started.
    Constructed,
    /// Started: workers run.
    Running,
    /// Told to stop: workers leave, the dispatcher has yet to see the command.
    ShuttingDown,
    /// Stopped: the control channel is closed.
    Stopped,
}

/// What the dispatcher did with the next command.
#[derive(Debug, Clone, Copy)]
pub enum Dispatched {
    /// There was no command to handle.
    Nothing,
    /// A request went onto the work queue.
    Queued,
    /// The workers were told to empty the work queue.
    Draining,
    /// The readout made for the one who asked.
    Snapshot(Metrics),
    /// The engine stopped.
    Stopped,
}

/// What a worker that asked for work is to do.
pub enum WorkerAction {
    /// Leave: the engine is shutting down.
    Exit,
    /// Nothing to do: yield and ask again.
    Idle,
    /// The request was taken off the queue and is not to be sent.
    Discarded(InjectionRequest),
    /// Send for the request, then report with the buffer.
    Send {
        /// The request to send for.
        request: InjectionRequest,
        /// An empty buffer of the pool's size.
        buffer: Buffer,
    },
}

/// The kinds of thing a worker that asks for work is told.
pub enum Poll {
    /// Leave.
    Exit,
    /// Nothing to do.
    Idle,
    /// A request is dropped.
    Discard,
    /// A request is to be sent for.
    Send,
}

/// An engine as its contracts speak of it.
pub struct EngineState {
    /// The parameters it was made with.
    pub config: EngineConfig,
    /// Where it is in its life.
    pub phase: EnginePhase,
    /// Whether workers send for the requests they take.
    pub accepting: bool,
    /// The commands that wait for the dispatcher, oldest first.
    pub control: Seq<EngineCommand>,
    /// The requests that wait for a worker, oldest first.
    pub work: Seq<InjectionRequest>,
    /// The buffer pool.
    pub pool: PoolState,
    /// The metrics collector.
    pub metrics: CollectorState,
}

impl EngineState {
    /// The parts are well-formed and the control channel is within its
    /// bound.
    pub open spec fn wf(self) -> bool {
        &&& self.config.valid()
        &&& self.control.len() <= CONTROL_CHANNEL_CAPACITY
        &&& self.pool.wf()
        &&& self.pool.buffer_size == self.config.buffer_size
        &&& self.pool.total == self.config.buffer_pool_size
        &&& self.metrics.wf()
        &&& self.phase is Stopped ==> self.control.len() == 0
    }

    /// An engine as it is made.
    pub open spec fn initial(config: EngineConfig, last_update: i64) -> EngineState {
        EngineState {
            config,
            phase: EnginePhase::Constructed,
            accepting: true,
            control: Seq::empty(),
            work: Seq::empty(),
            pool: PoolState::full(config.buffer_pool_size as nat, config.buffer_size as nat),
            metrics: CollectorState::initial(config.metrics_window as nat, last_update),
        }
    }

    /// Whether the running flag is set: workers stay and readouts are
    /// published.
    pub open spec fn running(self) -> bool {
        self.phase is Constructed || self.phase is Running
    }

    /// Whether the control channel is closed.
    pub open spec fn closed(self) -> bool {
        self.phase is Stopped
    }

    /// Whether the control channel takes one more command.
    pub open spec fn can_submit(self) -> bool {
        !self.closed() && self.control.len() < CONTROL_CHANNEL_CAPACITY
    }

    /// Why the control channel takes no command.
    pub open spec fn refusal(self) -> Seq<char> {
        if self.closed() {
            "channel closed"@
        } else {
            "no available capacity"@
        }
    }

    /// The engine after a command was put on the control channel.
    pub open spec fn submitted(self, command: EngineCommand) -> EngineState {
        EngineState { control: self.control.push(command), ..self }
    }

    /// The engine after an attempt to put a command on the control channel:
    /// nothing changes where the channel is closed or full.
    pub open spec fn offered(self, command: EngineCommand) -> EngineState {
        if self.can_submit() {
            self.submitted(command)
        } else {
            self
        }
    }

    /// The engine after it was started.
    pub open spec fn started(self) -> EngineState {
        if self.phase is Constructed {
            EngineState { phase: EnginePhase::Running, ..self }
        } else {
            self
        }
    }

    /// The engine after the running flag was cleared.
    pub open spec fn flag_cleared(self) -> EngineState {
        if self.running() {
            EngineState { phase: EnginePhase::ShuttingDown, ..self }
        } else {
            self
        }
    }

    /// Whether the dispatcher has a command to handle.
    pub open spec fn can_dispatch(self) -> bool {
        !self.closed() && self.control.len() > 0
    }

    /// The engine after the dispatcher handled the oldest command, at `now`
    /// on the engine's clock and `wall_millis` on the wall clock. A request
    /// for a readout has one made. A shutdown closes the control channel, and
    /// the commands behind it are lost with it.
    pub open spec fn dispatched(self, now: u64, wall_millis: i64) -> EngineState {
        if !self.can_dispatch() {
            self
        } else {
            match self.control[0] {
                EngineCommand::StartInjection(request) => EngineState {
                    control: self.control.drop_first(),
                    work: self.work.push(request),
                    ..self
                },
                EngineCommand::StopInjection => EngineState {
                    control: self.control.drop_first(),
                    accepting: false,
                    ..self
                },
                EngineCommand::GetMetrics => EngineState {
                    control: self.control.drop_first(),
                    metrics: self.metrics.calculated(now, wall_millis),
                    ..self
                },
                EngineCommand::Shutdown => EngineState {
                    control: Seq::empty(),
                    phase: EnginePhase::Stopped,
                    ..self
                },
            }
        }
    }

    /// The engine after the dispatcher handled every command it could, all
    /// at the same readings of the clocks.
    pub open spec fn drained(self, now: u64, wall_millis: i64) -> EngineState
        decreases self.control.len(),
    {
        if !self.can_dispatch() {
            self
        } else {
            self.dispatched(now, wall_millis).drained(now, wall_millis)
        }
    }

    /// What a worker that asks for work is told.
    pub open spec fn poll(self) -> Poll {
        if !self.running() {
            Poll::Exit
        } else if self.work.len() == 0 {
            Poll::Idle
        } else if self.accepting {
            Poll::Send
        } else {
            Poll::Discard
        }
    }

    /// The engine after a worker asked for work. A worker that finds the
    /// queue empty while the workers are emptying it ends the emptying.
    pub open spec fn polled(self) -> EngineState {
        match self.poll() {
            Poll::Exit => self,
            Poll::Idle => EngineState { accepting: true, ..self },
            Poll::Discard => EngineState { work: self.work.drop_first(), ..self },
            Poll::Send => EngineState {
                work: self.work.drop_first(),
                pool: self.pool.after_acquire(),
                ..self
            },
        }
    }

    /// The engine after a worker reported a send made with a buffer of the
    /// given capacity: the send is recorded, as a failure of zero bytes if it
    /// failed, and the buffer goes back to the pool.
    pub open spec fn completed(
        self,
        capacity: nat,
        sent: Option<nat>,
        latency: u64,
        now: u64,
    ) -> EngineState {
        EngineState {
            metrics: match sent {
                Some(bytes) => self.metrics.recorded(bytes, true, latency, now),
                None => self.metrics.recorded(0, false, latency, now),
            },
            pool: self.pool.after_release(capacity),
            ..self
        }
    }

    /// The engine after the publisher made a readout, which it does only
    /// while the running flag is set.
    pub open spec fn published(self, now: u64, wall_millis: i64) -> EngineState {
        if self.running() {
            EngineState { metrics: self.metrics.calculated(now, wall_millis), ..self }
        } else {
            self
        }
    }
}

/// Stopping is final: on a stopped engine no command is taken and none is
/// handled, so shutting down again changes nothing.
pub proof fn lemma_stopped_is_final(
    engine: EngineState,
    command: EngineCommand,
    now: u64,
    wall_millis: i64,
)
    requires
        engine.wf(),
        engine.closed(),
    ensures
        !engine.can_submit(),
        engine.flag_cleared().offered(command) == engine,
        engine.dispatched(now, wall_millis) == engine,
        engine.drained(now, wall_millis) == engine,
        engine.polled() == engine,
        engine.poll() is Exit,
{
}

/// A request that a worker sends for costs the pool nothing once the send is
/// reported: while a buffer waits in the pool, as many wait afterwards as
/// before, and one more injection is counted.
pub proof fn lemma_send_round_trip(engine: EngineState, sent: Option<nat>, latency: u64, now: u64)
    requires
        engine.wf(),
        engine.poll() is Send,
        engine.pool.available > 0,
        engine.metrics.packets_injected < u64::MAX,
    ensures
        engine.polled().completed(engine.pool.buffer_size, sent, latency, now).pool
            == engine.pool,
        engine.polled().completed(
            engine.pool.buffer_size,
            sent,
            latency,
            now,
        ).metrics.packets_injected == engine.metrics.packets_injected + 1,
        engine.polled().completed(engine.pool.buffer_size, sent, latency, now).wf(),
{
}

/// The commands that submit the requests, in order.
pub open spec fn start_commands(requests: Seq<InjectionRequest>) -> Seq<EngineCommand> {
    requests.map_values(|request: InjectionRequest| EngineCommand::StartInjection(request))
}

/// Requests that were submitted reach the work queue in the order they were
/// submitted in, once the dispatcher has handled them; nothing else changes.
pub proof fn lemma_requests_reach_workers(
    engine: EngineState,
    requests: Seq<InjectionRequest>,
    now: u64,
    wall_millis: i64,
)
    requires
        engine.wf(),
        !engine.closed(),
        engine.control == start_commands(requests),
    ensures
        engine.drained(now, wall_millis) == (EngineState {
            control: Seq::empty(),
            work: engine.work + requests,
            ..engine
        }),
    decreases requests.len(),
{
    if requests.len() == 0 {
        assert(engine.work + requests =~= engine.work);
        assert(engine.control =~= Seq::empty());
    } else {
        let next = engine.dispatched(now, wall_millis);
        let rest = requests.drop_first();
        assert(engine.control[0] == EngineCommand::StartInjection(requests[0]));
        assert(next.control =~= start_commands(rest));
        lemma_requests_reach_workers(next, rest, now, wall_millis);
        assert(engine.work.push(requests[0]) + rest =~= engine.work + requests);
    }
}

/// How one send went, as a worker reports it.
pub struct SendReport {
    /// The bytes sent, if the send succeeded.
    pub sent: Option<nat>,
    /// How long the send took, in nanoseconds.
    pub latency: u64,
    /// When it was reported, on the engine's clock.
    pub at: u64,
}

/// The engine after a worker, one request after the other, asked for work
/// and reported the send as the reports say.
pub open spec fn served(engine: EngineState, reports: Seq<SendReport>) -> EngineState
    decreases reports.len(),
{
    if reports.len() == 0 {
        engine
    } else {
        let before = served(engine, reports.drop_last());
        before.polled().completed(
            before.pool.buffer_size,
            reports.last().sent,
            reports.last().latency,
            reports.last().at,
        )
    }
}

/// Serving requests that wait, however the sends go, takes them off the work
/// queue in order, counts one injection each and leaves the pool as it was.
pub proof fn lemma_served(engine: EngineState, reports: Seq<SendReport>)
    requires
        engine.wf(),
        engine.running(),
        engine.accepting,
        engine.pool.available > 0,
        reports.len() <= engine.work.len(),
    ensures
        served(engine, reports).wf(),
        served(engine, reports).pool == engine.pool,
        served(engine, reports).work == engine.work.skip(reports.len() as int),
        served(engine, reports).metrics.packets_injected == crate::metrics::saturate(
            engine.metrics.packets_injected + reports.len(),
        ),
        served(engine, reports).phase == engine.phase,
        served(engine, reports).accepting,
        served(engine, reports).control == engine.control,
    decreases reports.len(),
{
    if reports.len() == 0 {
        assert(engine.work.skip(0) =~= engine.work);
    } else {
        let before = served(engine, reports.drop_last());
        lemma_served(engine, reports.drop_last());
        assert(before.work.len() > 0);
        assert(before.work.drop_first() =~= engine.work.skip(reports.len() as int));
    }
}

/// From submission to readout: once the dispatcher has handled the requests
/// submitted and a worker has served every request that waits, the work queue
/// is empty, the pool is as it was, and a readout asked for then counts one
/// injection for each request served.
pub proof fn lemma_end_to_end(
    engine: EngineState,
    requests: Seq<InjectionRequest>,
    reports: Seq<SendReport>,
    now: u64,
    wall_millis: i64,
)
    requires
        engine.wf(),
        engine.running(),
        engine.accepting,
        engine.pool.available > 0,
        engine.control == start_commands(requests),
        reports.len() == engine.work.len() + requests.len(),
    ensures
        ({
            let end = served(engine.drained(now, wall_millis), reports);
            let asked = end.offered(EngineCommand::GetMetrics).drained(now, wall_millis);
            &&& end.wf()
            &&& end.work.len() == 0
            &&& end.pool == engine.pool
            &&& end.metrics.packets_injected == crate::metrics::saturate(
                engine.metrics.packets_injected + reports.len(),
            )
            &&& asked.pool == engine.pool
            &&& asked.metrics.last_metrics.packets_injected == end.metrics.packets_injected
        }),
{
    lemma_requests_reach_workers(engine, requests, now, wall_millis);
    let queued = engine.drained(now, wall_millis);
    lemma_served(queued, reports);
    let end = served(queued, reports);
    lemma_readout_when_idle(end, now, wall_millis);
}

/// Handling commands keeps an engine well-formed and empties the control
/// channel; it leaves the pool and the counters as they were.
pub proof fn lemma_dispatch_wf(engine: EngineState, now: u64, wall_millis: i64)
    requires
        engine.wf(),
    ensures
        engine.dispatched(now, wall_millis).wf(),
        engine.drained(now, wall_millis).wf(),
        !engine.drained(now, wall_millis).can_dispatch(),
        engine.drained(now, wall_millis).control.len() == 0,
        engine.drained(now, wall_millis).pool == engine.pool,
        engine.drained(now, wall_millis).metrics.packets_injected
            == engine.metrics.packets_injected,
        engine.drained(now, wall_millis).metrics.successful_injections
            == engine.metrics.successful_injections,
        engine.drained(now, wall_millis).metrics.bytes_transmitted
            == engine.metrics.bytes_transmitted,
    decreases engine.control.len(),
{
    crate::metrics::lemma_snapshot_bounds(engine.metrics, now, wall_millis);
    if engine.can_dispatch() {
        lemma_dispatch_wf(engine.dispatched(now, wall_millis), now, wall_millis);
    }
}

/// A request for a readout that finds the control channel empty is answered
/// with the readout made then.
pub proof fn lemma_readout_when_idle(engine: EngineState, now: u64, wall_millis: i64)
    requires
        engine.wf(),
        !engine.closed(),
        engine.control.len() == 0,
    ensures
        engine.offered(EngineCommand::GetMetrics).drained(now, wall_millis) == (EngineState {
            metrics: engine.metrics.calculated(now, wall_millis),
            ..engine
        }),
        engine.offered(EngineCommand::GetMetrics).drained(
            now,
            wall_millis,
        ).metrics.last_metrics == engine.metrics.snapshot(now, wall_millis),
{
    let asked = engine.offered(EngineCommand::GetMetrics);
    assert(asked.control[0] == EngineCommand::GetMetrics);
    let answered = asked.dispatched(now, wall_millis);
    assert(answered.control =~= Seq::<EngineCommand>::empty());
    assert(answered.drained(now, wall_millis) == answered);
    assert(answered.control == engine.control);
}

/// Where the newest command asks for a readout and the engine does not stop
/// first, the readout cached in the end carries the counters as they were.
pub proof fn lemma_last_answer(engine: EngineState, now: u64, wall_millis: i64)
    requires
        engine.metrics.wf(),
        engine.control.len() > 0,
        engine.control.last() is GetMetrics,
        !engine.closed(),
    ensures
        !engine.drained(now, wall_millis).closed() ==> engine.drained(
            now,
            wall_millis,
        ).metrics.last_metrics.packets_injected == engine.metrics.packets_injected
            && engine.drained(now, wall_millis).metrics.last_metrics.bytes_transmitted
            == engine.metrics.bytes_transmitted,
    decreases engine.control.len(),
{
    crate::metrics::lemma_snapshot_bounds(engine.metrics, now, wall_millis);
    let next = engine.dispatched(now, wall_millis);
    if engine.control.len() == 1 {
        assert(next.control =~= Seq::<EngineCommand>::empty());
        assert(next.drained(now, wall_millis) == next);
    } else if engine.control[0] is Shutdown {
        assert(next.drained(now, wall_millis) == next);
    } else {
        assert(next.control.last() == engine.control.last());
        lemma_last_answer(next, now, wall_millis);
    }
}

/// The requests that wait in a queue, oldest first.
pub uninterp spec fn queued_requests(q: SegQueue<InjectionRequest>) -> Seq<InjectionRequest>;

/// `SegQueue::new`: an empty queue.
#[verifier::external_body]
fn requests_new() -> (q: SegQueue<InjectionRequest>)
    ensures
        queued_requests(q) == Seq::<InjectionRequest>::empty(),
{
    SegQueue::new()
}

/// `SegQueue::push_mut`, the push for a queue that is held exclusively:
/// appends the request.
#[verifier::external_body]
fn requests_push(q: &mut SegQueue<InjectionRequest>, request: InjectionRequest)
    ensures
        queued_requests(*final(q)) == queued_requests(*old(q)).push(request),
{
    q.push_mut(request)
}

/// `SegQueue::pop_mut`, the pop for a queue that is held exclusively: takes
/// the oldest request, or returns `None` from an empty queue.
#[verifier::external_body]
fn requests_pop(q: &mut SegQueue<InjectionRequest>) -> (r: Option<InjectionRequest>)
    ensures
        queued_requests(*old(q)).len() == 0 ==> r is None,
        queued_requests(*old(q)).len() == 0 ==> queued_requests(*final(q)) == queued_requests(*old(q)),
        queued_requests(*old(q)).len() > 0 ==> r == Some(queued_requests(*old(q)).first()),
        queued_requests(*old(q)).len() > 0 ==> queued_requests(*final(q)) == queued_requests(*old(q)).drop_first(),
{
    q.pop_mut()
}

/// The bytes that a send reports, if it succeeded.
pub open spec fn sent_bytes<E>(outcome: Result<usize, E>) -> Option<nat> {
    match outcome {
        Ok(bytes) => Some(bytes as nat),
        Err(_) => None,
    }
}

/// The error of a command that could not be carried out, with a message made
/// of what was tried and why it failed.
fn command_error(what: &str, why: &str) -> (e: DeauthError)
    ensures
        e is InjectionError,
        e.spec_message()@ == what@ + why@,
{
    DeauthError::InjectionError(what.to_string().concat(why))
}

/// The injection engine.
pub struct DeauthEngine {
    config: EngineConfig,
    buffer_pool: PacketBuffer,
    metrics_collector: MetricsCollector,
    request_queue: SegQueue<InjectionRequest>,
    control: VecDeque<EngineCommand>,
    phase: EnginePhase,
    accepting: bool,
}

impl View for DeauthEngine {
    type V = EngineState;

    closed spec fn view(&self) -> EngineState {
        EngineState {
            config: self.config,
            phase: self.phase,
            accepting: self.accepting,
            control: self.control@,
            work: queued_requests(self.request_queue),
            pool: self.buffer_pool@,
            metrics: self.metrics_collector@,
        }
    }
}

impl DeauthEngine {
    /// The engine and its parts are well-formed.
    pub closed spec fn wf(&self) -> bool {
        &&& self@.wf()
        &&& self.buffer_pool.wf()
        &&& self.metrics_collector.wf()
    }

    /// A well-formed engine has a well-formed state.
    pub proof fn lemma_wf_view(&self)
        requires
            self.wf(),
        ensures
            self@.wf(),
    {
    }

    /// An engine with the given configuration, not yet started. A
    /// configuration that is not valid is refused.
    pub fn new(config: EngineConfig) -> (r: Result<DeauthEngine, DeauthError>)
        ensures
            r is Ok <==> config.valid(),
            r matches Ok(engine) ==> engine.wf() && engine@ == EngineState::initial(
                config,
                engine@.metrics.last_metrics.last_update,
            ),
            r matches Err(e) ==> e is ConfigError && e.spec_message()@
                == "buffer pool, buffer size or worker rate out of range"@,
    {
        if !config.is_valid() {
            return Err(
                DeauthError::ConfigError(
                    "buffer pool, buffer size or worker rate out of range".to_string(),
                ),
            );
        }
        let buffer_pool = PacketBuffer::new(config.buffer_pool_size, config.buffer_size);
        let metrics_collector = MetricsCollector::new(config.metrics_window);
        Ok(
            DeauthEngine {
                config,
                buffer_pool,
                metrics_collector,
                request_queue: requests_new(),
                control: VecDeque::new(),
                phase: EnginePhase::Constructed,
                accepting: true,
            },
        )
    }

    /// The parameters the engine was made with.
    pub fn config(&self) -> (c: &EngineConfig)
        ensures
            *c == self@.config,
    {
        &self.config
    }

    /// Where the engine is in its life.
    pub fn phase(&self) -> (p: EnginePhase)
        ensures
            p == self@.phase,
    {
        self.phase
    }

    /// Whether the running flag is set.
    pub fn is_running(&self) -> (r: bool)
        ensures
            r == self@.running(),
    {
        match self.phase {
            EnginePhase::Constructed => true,
            EnginePhase::Running => true,
            _ => false,
        }
    }

    /// What the buffer pool holds now.
    pub fn buffer_stats(&self) -> (s: BufferStats)
        requires
            self.wf(),
        ensures
            s.available == self@.pool.available,
            s.total == self@.pool.total,
            s.buffer_size == self@.pool.buffer_size,
    {
        self.buffer_pool.stats()
    }

    /// Nanoseconds on the engine's clock, which is its collector's and starts
    /// when the engine is made. Nothing is claimed of a reading; what is done
    /// with one is stated at the functions whose names end in `_at`.
    pub fn now(&self) -> u64 {
        self.metrics_collector.now()
    }

    /// Starts the engine: from now on it is running, and `worker_threads`
    /// workers are to ask it for work. Only an engine that was never started
    /// can be.
    pub fn start(&mut self) -> (r: Result<(), DeauthError>)
        requires
            old(self).wf(),
        ensures
            final(self).wf(),
            final(self)@ == old(self)@.started(),
            r is Ok <==> old(self)@.phase is Constructed,
            r matches Err(e) ==> e is InjectionError && e.spec_message()@
                == "Failed to start: "@ + "engine already started"@,
    {
        match self.phase {
            EnginePhase::Constructed => {
                self.phase = EnginePhase::Running;
                Ok(())
            },
            _ => Err(command_error("Failed to start: ", "engine already started")),
        }
    }

    /// Puts a command on the control channel, unless the channel is closed
    /// or full; then it says which.
    fn submit(&mut self, command: EngineCommand) -> (r: Result<(), &'static str>)
        requires
            old(self).wf(),
        ensures
            final(self).wf(),
            r is Ok <==> old(self)@.can_submit(),
            r matches Err(why) ==> why@ == old(self)@.refusal(),
            final(self)@ == old(self)@.offered(command),
    {
        match self.phase {
            EnginePhase::Stopped => {
                return Err("channel closed");
            },
            _ => {},
        }
        if self.control.len() < CONTROL_CHANNEL_CAPACITY {
            self.control.push_back(command);
            Ok(())
        } else {
            Err("no available capacity")
        }
    }

    /// Submits a request for injection. It fails, and changes nothing, where
    /// the control channel is closed or full.
    pub fn inject_deauth(
        &mut self,
        target: MacAddress,
        access_point: MacAddress,
        reason_code: u16,
        count: u32,
        interval: Duration,
    ) -> (r: Result<(), DeauthError>)
        requires
            old(self).wf(),
        ensures
            final(self).wf(),
            r is Ok <==> old(self)@.can_submit(),
            r matches Err(e) ==> e is InjectionError && e.spec_message()@
                == "Failed to submit request: "@ + old(self)@.refusal(),
            final(self)@ == old(self)@.offered(
                EngineCommand::StartInjection(
                    InjectionRequest { target, access_point, reason_code, count, interval },
                ),
            ),
    {
        let request = InjectionRequest { target, access_point, reason_code, count, interval };
        match self.submit(EngineCommand::StartInjection(request)) {
            Ok(()) => Ok(()),
            Err(why) => Err(command_error("Failed to submit request: ", why)),
        }
    }

    /// Asks that the workers empty the work queue without sending. It fails,
    /// and changes nothing, where the control channel is closed or full.
    pub fn stop_injection(&mut self) -> (r: Result<(), DeauthError>)
        requires
            old(self).wf(),
        ensures
            final(self).wf(),
            r is Ok <==> old(self)@.can_submit(),
            r matches Err(e) ==> e is InjectionError && e.spec_message()@
                == "Failed to stop injection: "@ + old(self)@.refusal(),
            final(self)@ == old(self)@.offered(EngineCommand::StopInjection),
    {
        match self.submit(EngineCommand::StopInjection) {
            Ok(()) => Ok(()),
            Err(why) => Err(command_error("Failed to stop injection: ", why)),
        }
    }

    /// Clears the running flag, so that the workers leave, and asks the
    /// dispatcher to stop the engine. It fails where the control channel is
    /// closed or full; on an engine that has stopped it changes nothing.
    pub fn shutdown(&mut self) -> (r: Result<(), DeauthError>)
        requires
            old(self).wf(),
        ensures
            final(self).wf(),
            r is Ok <==> old(self)@.can_submit(),
            r matches Err(e) ==> e is InjectionError && e.spec_message()@ == "Failed to shutdown: "@
                + old(self)@.refusal(),
            final(self)@ == old(self)@.flag_cleared().offered(EngineCommand::Shutdown),
            old(self)@.closed() ==> final(self)@ == old(self)@,
            !final(self)@.running(),
    {
        match self.phase {
            EnginePhase::Constructed => {
                self.phase = EnginePhase::ShuttingDown;
            },
            EnginePhase::Running => {
                self.phase = EnginePhase::ShuttingDown;
            },
            _ => {},
        }
        match self.submit(EngineCommand::Shutdown) {
            Ok(()) => Ok(()),
            Err(why) => Err(command_error("Failed to shutdown: ", why)),
        }
    }

    /// The dispatcher's step, at `now` on the engine's clock and
    /// `wall_millis` on the wall clock: handles the oldest command on the
    /// control channel, if the channel is open and holds one.
    pub fn dispatch_next_at(&mut self, now: u64, wall_millis: i64) -> (done: Dispatched)
        requires
            old(self).wf(),
        ensures
            final(self).wf(),
            final(self)@ == old(self)@.dispatched(now, wall_millis),
            done is Nothing <==> !old(self)@.can_dispatch(),
            done is Queued <==> old(self)@.can_dispatch() && old(self)@.control[0] is StartInjection,
            done is Draining <==> old(self)@.can_dispatch() && old(self)@.control[0] is StopInjection,
            done is Stopped <==> old(self)@.can_dispatch() && old(self)@.control[0] is Shutdown,
            done is Snapshot <==> old(self)@.can_dispatch() && old(self)@.control[0] is GetMetrics,
            done matches Dispatched::Snapshot(m) ==> m == old(self)@.metrics.snapshot(
                now,
                wall_millis,
            ),
    {
        match self.phase {
            EnginePhase::Stopped => {
                return Dispatched::Nothing;
            },
            _ => {},
        }
        match self.control.pop_front() {
            None => Dispatched::Nothing,
            Some(command) => {
                assert(self.control@ =~= old(self).control@.drop_first());
                match command {
                    EngineCommand::StartInjection(request) => {
                        requests_push(&mut self.request_queue, request);
                        Dispatched::Queued
                    },
                    EngineCommand::StopInjection => {
                        self.accepting = false;
                        Dispatched::Draining
                    },
                    EngineCommand::GetMetrics => Dispatched::Snapshot(
                        self.metrics_collector.calculate_metrics_at(now, wall_millis),
                    ),
                    EngineCommand::Shutdown => {
                        self.control.clear();
                        self.phase = EnginePhase::Stopped;
                        Dispatched::Stopped
                    },
                }
            },
        }
    }

    /// The dispatcher's step, now. Whatever the clocks read, this is
    /// `dispatch_next_at` on those readings.
    pub fn dispatch_next(&mut self) -> (done: Dispatched)
        requires
            old(self).wf(),
        ensures
            final(self).wf(),
            exists|now: u64, wall_millis: i64|
                final(self)@ == #[trigger] old(self)@.dispatched(now, wall_millis) && (
                done matches Dispatched::Snapshot(m) ==> m == old(self)@.metrics.snapshot(
                    now,
                    wall_millis,
                )),
            done is Nothing <==> !old(self)@.can_dispatch(),
            done is Queued <==> old(self)@.can_dispatch() && old(self)@.control[0] is StartInjection,
            done is Draining <==> old(self)@.can_dispatch() && old(self)@.control[0] is StopInjection,
            done is Stopped <==> old(self)@.can_dispatch() && old(self)@.control[0] is Shutdown,
            done is Snapshot <==> old(self)@.can_dispatch() && old(self)@.control[0] is GetMetrics,
    {
        let now = self.metrics_collector.now();
        let wall_millis = wall_clock_millis();
        self.dispatch_next_at(now, wall_millis)
    }

    /// The dispatcher's loop, at `now` on the engine's clock and
    /// `wall_millis` on the wall clock: handles commands until the control
    /// channel is empty or the engine has stopped.
    pub fn dispatch_pending_at(&mut self, now: u64, wall_millis: i64)
        requires
            old(self).wf(),
        ensures
            final(self).wf(),
            final(self)@ == old(self)@.drained(now, wall_millis),
    {
        loop
            invariant
                self.wf(),
                self@.drained(now, wall_millis) == old(self)@.drained(now, wall_millis),
            ensures
                self.wf(),
                self@ == old(self)@.drained(now, wall_millis),
            decreases self@.control.len(),
        {
            let can_dispatch = match self.phase {
                EnginePhase::Stopped => false,
                _ => self.control.len() > 0,
            };
            if !can_dispatch {
                break ;
            }
            let _ = self.dispatch_next_at(now, wall_millis);
        }
    }

    /// The dispatcher's loop, now. Whatever the clocks read, this is
    /// `dispatch_pending_at` on those readings.
    pub fn dispatch_pending(&mut self)
        requires
            old(self).wf(),
        ensures
            final(self).wf(),
            exists|now: u64, wall_millis: i64|
                final(self)@ == #[trigger] old(self)@.drained(now, wall_millis),
    {
        let now = self.metrics_collector.now();
        let wall_millis = wall_clock_millis();
        self.dispatch_pending_at(now, wall_millis);
    }

    /// A readout by way of the dispatcher, at `now` on the engine's clock and
    /// `wall_millis` on the wall clock: the request waits its turn behind the
    /// commands already submitted, which are handled first, and is answered
    /// with a readout made then. It fails where the control channel is closed
    /// or full, and where the engine stops before the request's turn comes.
    pub fn get_metrics_at(&mut self, now: u64, wall_millis: i64) -> (r: Result<Metrics, DeauthError>)
        requires
            old(self).wf(),
        ensures
            final(self).wf(),
            final(self)@ == old(self)@.offered(EngineCommand::GetMetrics).drained(now, wall_millis),
            r is Ok <==> old(self)@.can_submit() && !final(self)@.closed(),
            r matches Ok(m) ==> m == final(self)@.metrics.last_metrics,
            r is Ok && old(self)@.control.len() == 0 ==> r->Ok_0 == old(self)@.metrics.snapshot(
                now,
                wall_millis,
            ),
            r matches Ok(m) ==> m.packets_injected == old(self)@.metrics.packets_injected
                && m.bytes_transmitted == old(self)@.metrics.bytes_transmitted,
            r matches Err(e) ==> e is InjectionError && e.spec_message()@ == if old(
                self,
            )@.can_submit() {
                "Metrics request failed: "@ + "channel closed"@
            } else {
                "Failed to get metrics: "@ + old(self)@.refusal()
            },
            final(self)@.control.len() == 0,
            final(self)@.pool == old(self)@.pool,
    {
        proof {
            lemma_dispatch_wf(self@.offered(EngineCommand::GetMetrics), now, wall_millis);
            if self@.can_submit() && self@.control.len() == 0 {
                lemma_readout_when_idle(self@, now, wall_millis);
            }
            if self@.can_submit() {
                lemma_last_answer(self@.submitted(EngineCommand::GetMetrics), now, wall_millis);
            }
        }
        match self.submit(EngineCommand::GetMetrics) {
            Ok(()) => {},
            Err(why) => {
                self.dispatch_pending_at(now, wall_millis);
                return Err(command_error("Failed to get metrics: ", why));
            },
        }
        self.dispatch_pending_at(now, wall_millis);
        match self.phase {
            EnginePhase::Stopped => Err(command_error("Metrics request failed: ", "channel closed")),
            _ => Ok(self.metrics_collector.get_metrics()),
        }
    }

    /// A readout by way of the dispatcher, now. Whatever the clocks read,
    /// this is `get_metrics_at` on those readings.
    pub fn get_metrics(&mut self) -> (r: Result<Metrics, DeauthError>)
        requires
            old(self).wf(),
        ensures
            final(self).wf(),
            exists|now: u64, wall_millis: i64|
                final(self)@ == #[trigger] old(self)@.offered(EngineCommand::GetMetrics).drained(
                    now,
                    wall_millis,
                ) && (r is Ok && old(self)@.control.len() == 0 ==> r->Ok_0 == old(
                    self,
                )@.metrics.snapshot(now, wall_millis)),
            r is Ok <==> old(self)@.can_submit() && !final(self)@.closed(),
            r matches Ok(m) ==> m == final(self)@.metrics.last_metrics,
            r matches Ok(m) ==> m.packets_injected == old(self)@.metrics.packets_injected
                && m.bytes_transmitted == old(self)@.metrics.bytes_transmitted,
            r matches Err(e) ==> e is InjectionError && e.spec_message()@ == if old(
                self,
            )@.can_submit() {
                "Metrics request failed: "@ + "channel closed"@
            } else {
                "Failed to get metrics: "@ + old(self)@.refusal()
            },
            final(self)@.control.len() == 0,
            final(self)@.pool == old(self)@.pool,
    {
        let now = self.metrics_collector.now();
        let wall_millis = wall_clock_millis();
        self.get_metrics_at(now, wall_millis)
    }

    /// A worker's first step: asks for work. While the engine runs, the
    /// oldest request is taken off the queue; it comes with a buffer to send
    /// with, or, while the workers are emptying the queue, is dropped.
    pub fn poll_work(&mut self) -> (action: WorkerAction)
        requires
            old(self).wf(),
        ensures
            final(self).wf(),
            final(self)@ == old(self)@.polled(),
            action is Exit <==> old(self)@.poll() is Exit,
            action is Idle <==> old(self)@.poll() is Idle,
            action is Discarded <==> old(self)@.poll() is Discard,
            action is Send <==> old(self)@.poll() is Send,
            action matches WorkerAction::Discarded(request) ==> request == old(self)@.work[0],
            action matches WorkerAction::Send { request, buffer } ==> request == old(self)@.work[0]
                && buffer.wf() && buffer@ == Seq::<u8>::empty() && buffer.spec_capacity() == old(self)@.pool.buffer_size,
    {
        if !self.is_running() {
            return WorkerAction::Exit;
        }
        match requests_pop(&mut self.request_queue) {
            None => {
                self.accepting = true;
                WorkerAction::Idle
            },
            Some(request) => {
                if self.accepting {
                    match self.buffer_pool.acquire() {
                        Some(buffer) => WorkerAction::Send { request, buffer },
                        None => WorkerAction::Send {
                            request,
                            buffer: Buffer::with_capacity(self.config.buffer_size),
                        },
                    }
                } else {
                    WorkerAction::Discarded(request)
                }
            },
        }
    }

    /// A worker's last step, at `now` on the engine's clock: reports how the
    /// send went and gives the buffer back. A failed send counts as an
    /// injection of zero bytes that did not succeed; it stops nothing.
    pub fn complete_send_at<E>(
        &mut self,
        buffer: Buffer,
        outcome: &Result<usize, E>,
        latency: Duration,
        now: u64,
    )
        requires
            old(self).wf(),
        ensures
            final(self).wf(),
            final(self)@ == old(self)@.completed(
                buffer.spec_capacity() as nat,
                sent_bytes(*outcome),
                nanos_u64(latency),
                now,
            ),
    {
        match outcome {
            Ok(bytes) => self.metrics_collector.record_injection_at(*bytes, true, latency, now),
            Err(_) => self.metrics_collector.record_injection_at(0, false, latency, now),
        }
        self.buffer_pool.release(buffer);
    }

    /// A worker's last step, now. Whatever the clock reads, this is
    /// `complete_send_at` on that reading.
    pub fn complete_send<E>(&mut self, buffer: Buffer, outcome: &Result<usize, E>, latency: Duration)
        requires
            old(self).wf(),
        ensures
            final(self).wf(),
            exists|now: u64|
                final(self)@ == #[trigger] old(self)@.completed(
                    buffer.spec_capacity() as nat,
                    sent_bytes(*outcome),
                    nanos_u64(latency),
                    now,
                ),
    {
        let now = self.metrics_collector.now();
        self.complete_send_at(buffer, outcome, latency, now);
    }

    /// The publisher's step at `now` on the engine's clock and `wall_millis`
    /// on the wall clock: while the running flag is set, makes a readout to
    /// publish; afterwards, nothing.
    pub fn publish_metrics_at(&mut self, now: u64, wall_millis: i64) -> (update: Option<MetricsUpdate>)
        requires
            old(self).wf(),
        ensures
            final(self).wf(),
            final(self)@ == old(self)@.published(now, wall_millis),
            update is Some <==> old(self)@.running(),
            update matches Some(u) ==> u.timestamp == now && u.metrics == old(self)@.metrics.snapshot(now, wall_millis),
    {
        if self.is_running() {
            let metrics = self.metrics_collector.calculate_metrics_at(now, wall_millis);
            Some(MetricsUpdate { timestamp: now, metrics })
        } else {
            None
        }
    }

    /// The publisher's step, now. Whatever the clocks read, this is
    /// `publish_metrics_at` on those readings.
    pub fn publish_metrics(&mut self) -> (update: Option<MetricsUpdate>)
        requires
            old(self).wf(),
        ensures
            final(self).wf(),
            update is Some <==> old(self)@.running(),
            exists|now: u64, wall_millis: i64|
                final(self)@ == #[trigger] old(self)@.published(now, wall_millis) && (
                update matches Some(u) ==> u.timestamp == now && u.metrics == old(self)@.metrics.snapshot(now, wall_millis)),
    {
        let now = self.metrics_collector.now();
        let wall_millis = wall_clock_millis();
        self.publish_metrics_at(now, wall_millis)
    }
}

} // verus!
