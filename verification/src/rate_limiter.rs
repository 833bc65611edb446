//! A token bucket that refills on demand.
//!
//! The bucket holds at most `max_rate` tokens and earns `max_rate` tokens per
//! second. Nothing ticks in the background: each attempt first credits the
//! whole tokens that the time since the last refill has earned, and moves the
//! refill time only when that is at least one token.

use crate::clock::Stopwatch;
use vstd::arithmetic::div_mod::lemma_hoist_over_denominator;
use vstd::prelude::*;

verus! {

/// Nanoseconds in a second.
pub const NANOS_PER_SEC: u64 = 1_000_000_000;

/// Nanoseconds in a millisecond.
pub const NANOS_PER_MILLI: u64 = 1_000_000;

/// The time from `last` to `now`, zero where the clock went back.
pub open spec fn elapsed_between(last: nat, now: nat) -> nat {
    if now >= last {
        (now - last) as nat
    } else {
        0
    }
}

/// The whole tokens that `elapsed` nanoseconds earn at `max_rate` tokens per
/// second: `max_rate` for each whole second, and for the rest the whole
/// thousandths of `max_rate` that its whole milliseconds make.
pub open spec fn tokens_due(max_rate: nat, elapsed: nat) -> nat {
    let secs = elapsed / (NANOS_PER_SEC as nat);
    let millis = (elapsed % (NANOS_PER_SEC as nat)) / (NANOS_PER_MILLI as nat);
    secs * max_rate + millis * max_rate / 1000
}

/// A bucket as its contracts speak of it. Times are nanoseconds on the
/// bucket's own clock, which starts at zero when the bucket is made.
pub struct BucketState {
    /// Tokens per second, and the most the bucket holds.
    pub max_rate: nat,
    /// Tokens in the bucket.
    pub tokens: nat,
    /// When tokens were last credited.
    pub last_refill: nat,
}

impl BucketState {
    /// The bucket holds no more than its capacity.
    pub open spec fn wf(self) -> bool {
        self.tokens <= self.max_rate
    }

    /// A bucket as it is made: full, at time zero.
    pub open spec fn full(max_rate: nat) -> BucketState {
        BucketState { max_rate, tokens: max_rate, last_refill: 0 }
    }

    /// The tokens that are due at `now`.
    pub open spec fn due(self, now: nat) -> nat {
        tokens_due(self.max_rate, elapsed_between(self.last_refill, now))
    }

    /// The bucket after crediting what is due at `now`: nothing changes, the
    /// refill time included, unless at least one token is due.
    pub open spec fn refilled(self, now: nat) -> BucketState {
        if self.due(now) > 0 {
            BucketState {
                tokens: if self.tokens + self.due(now) > self.max_rate {
                    self.max_rate
                } else {
                    self.tokens + self.due(now)
                },
                last_refill: now,
                ..self
            }
        } else {
            self
        }
    }

    /// Whether an attempt at `now` gets a token.
    pub open spec fn grants(self, now: nat) -> bool {
        self.refilled(now).tokens > 0
    }

    /// The bucket after an attempt at `now`.
    pub open spec fn after_try(self, now: nat) -> BucketState {
        let r = self.refilled(now);
        if r.tokens > 0 {
            BucketState { tokens: (r.tokens - 1) as nat, ..r }
        } else {
            r
        }
    }

    /// How many of the attempts at `times`, made in that order, get a token.
    pub open spec fn granted(self, times: Seq<nat>) -> nat
        decreases times.len(),
    {
        if times.len() == 0 {
            0
        } else {
            (if self.grants(times[0]) {
                1nat
            } else {
                0nat
            }) + self.after_try(times[0]).granted(times.drop_first())
        }
    }
}

/// The times never go back.
pub open spec fn nondecreasing(times: Seq<nat>) -> bool {
    forall|i: int, j: int| 0 <= i <= j < times.len() ==> times[i] <= times[j]
}

/// What is due depends on the whole milliseconds alone.
proof fn lemma_due_by_millis(max_rate: nat, elapsed: nat)
    ensures
        tokens_due(max_rate, elapsed) == ((elapsed / 1_000_000) * max_rate) / 1000,
{
    let secs = elapsed / 1_000_000_000;
    let millis = (elapsed % 1_000_000_000) / 1_000_000;
    let m = elapsed / 1_000_000;
    assert(m == secs * 1000 + millis);
    assert(m * max_rate == millis * max_rate + (secs * max_rate) * 1000) by (nonlinear_arith)
        requires
            m == secs * 1000 + millis,
    ;
    assert(0 <= millis * max_rate) by (nonlinear_arith)
        requires
            0 <= millis,
            0 <= max_rate,
    ;
    lemma_hoist_over_denominator((millis * max_rate) as int, (secs * max_rate) as int, 1000);
}

/// Waiting in two parts earns no more than waiting once for their sum.
proof fn lemma_due_superadditive(max_rate: nat, a: nat, b: nat)
    ensures
        tokens_due(max_rate, a) + tokens_due(max_rate, b) <= tokens_due(max_rate, a + b),
{
    lemma_due_by_millis(max_rate, a);
    lemma_due_by_millis(max_rate, b);
    lemma_due_by_millis(max_rate, a + b);
    let ma = a / 1_000_000;
    let mb = b / 1_000_000;
    let mab = (a + b) / 1_000_000;
    assert(ma + mb <= mab);
    let x = ma * max_rate;
    let y = mb * max_rate;
    let z = mab * max_rate;
    assert(x + y <= z && 0 <= x && 0 <= y) by (nonlinear_arith)
        requires
            ma + mb <= mab,
            0 <= ma,
            0 <= mb,
            x == ma * max_rate,
            y == mb * max_rate,
            z == mab * max_rate,
            0 <= max_rate,
    ;
    assert(x / 1000 + y / 1000 <= z / 1000);
}

/// Waiting longer earns no less.
proof fn lemma_due_monotonic(max_rate: nat, a: nat, b: nat)
    requires
        a <= b,
    ensures
        tokens_due(max_rate, a) <= tokens_due(max_rate, b),
{
    lemma_due_superadditive(max_rate, a, (b - a) as nat);
}

/// However the attempts are spread, no more get a token than the bucket held
/// at the start plus what the whole stretch of time earns: polling often
/// earns nothing extra.
pub proof fn lemma_grants_bounded(bucket: BucketState, times: Seq<nat>)
    requires
        bucket.wf(),
        times.len() > 0,
        nondecreasing(times),
        bucket.last_refill <= times[0],
    ensures
        bucket.granted(times) <= bucket.tokens + tokens_due(
            bucket.max_rate,
            (times.last() - bucket.last_refill) as nat,
        ),
    decreases times.len(),
{
    let now = times[0];
    let rest = times.drop_first();
    let next = bucket.after_try(now);
    let first = (now - bucket.last_refill) as nat;
    assert(times[0] <= times[times.len() - 1]);
    if rest.len() == 0 {
        assert(next.granted(rest) == 0);
        assert(times.last() == now);
    } else {
        assert(rest.last() == times.last());
        assert(nondecreasing(rest)) by {
            assert forall|i: int, j: int| 0 <= i <= j < rest.len() implies rest[i] <= rest[j] by {
                assert(rest[i] == times[i + 1] && rest[j] == times[j + 1]);
            }
        }
        assert(rest[0] == times[1]);
        assert(times[0] <= times[1]);
        lemma_grants_bounded(next, rest);
        if bucket.due(now) > 0 {
            lemma_due_superadditive(bucket.max_rate, first, (times.last() - now) as nat);
        }
    }
}

/// While less than one token's worth of time has passed since the last
/// refill, no more attempts get a token than the bucket held, which is never
/// more than its rate.
pub proof fn lemma_burst_bounded(bucket: BucketState, times: Seq<nat>)
    requires
        bucket.wf(),
        times.len() > 0,
        nondecreasing(times),
        bucket.last_refill <= times[0],
        tokens_due(bucket.max_rate, (times.last() - bucket.last_refill) as nat) == 0,
    ensures
        bucket.granted(times) <= bucket.tokens,
        bucket.granted(times) <= bucket.max_rate,
{
    lemma_grants_bounded(bucket, times);
}

/// Within a window shorter than one second, fewer than `max_rate` tokens are
/// earned on top of what the bucket held.
pub proof fn lemma_window_bounded(bucket: BucketState, times: Seq<nat>)
    requires
        bucket.wf(),
        bucket.max_rate > 0,
        times.len() > 0,
        nondecreasing(times),
        bucket.last_refill <= times[0],
        times.last() - bucket.last_refill < NANOS_PER_SEC,
    ensures
        bucket.granted(times) < bucket.tokens + bucket.max_rate,
{
    lemma_grants_bounded(bucket, times);
    let span = (times.last() - bucket.last_refill) as nat;
    let millis = span / 1_000_000;
    lemma_due_by_millis(bucket.max_rate, span);
    assert(millis <= 999);
    assert(millis * bucket.max_rate <= 999 * bucket.max_rate) by (nonlinear_arith)
        requires
            millis <= 999,
            0 <= bucket.max_rate,
    ;
}

/// A second after the last refill the bucket is full again, so an attempt
/// gets a token even from a bucket that was empty.
pub proof fn lemma_refills_within_one_second(bucket: BucketState, now: nat)
    requires
        bucket.wf(),
        bucket.max_rate > 0,
        now >= bucket.last_refill + NANOS_PER_SEC,
    ensures
        bucket.refilled(now).tokens == bucket.max_rate,
        bucket.grants(now),
        bucket.after_try(now).tokens == bucket.max_rate - 1,
{
    let elapsed = (now - bucket.last_refill) as nat;
    lemma_due_monotonic(bucket.max_rate, 1_000_000_000, elapsed);
    assert(tokens_due(bucket.max_rate, 1_000_000_000) == bucket.max_rate) by {
        assert(1 * bucket.max_rate == bucket.max_rate) by (nonlinear_arith);
        assert(0 * bucket.max_rate == 0) by (nonlinear_arith);
    }
}

/// An attempt leaves a well-formed bucket well-formed.
pub proof fn lemma_after_try_wf(bucket: BucketState, now: nat)
    requires
        bucket.wf(),
    ensures
        bucket.refilled(now).wf(),
        bucket.after_try(now).wf(),
        bucket.after_try(now).max_rate == bucket.max_rate,
{
}

/// A token bucket on its own monotonic clock.
pub struct RateLimiter {
    max_rate: u32,
    tokens: u64,
    last_refill: u64,
    clock: Stopwatch,
}

impl View for RateLimiter {
    type V = BucketState;

    closed spec fn view(&self) -> BucketState {
        BucketState {
            max_rate: self.max_rate as nat,
            tokens: self.tokens as nat,
            last_refill: self.last_refill as nat,
        }
    }
}

impl RateLimiter {
    /// The bucket holds no more than its capacity.
    pub open spec fn wf(&self) -> bool {
        self@.wf()
    }

    /// A full bucket of `max_rate` tokens that earns `max_rate` a second.
    pub fn new(max_rate: u32) -> (limiter: RateLimiter)
        ensures
            limiter.wf(),
            limiter@ == BucketState::full(max_rate as nat),
    {
        RateLimiter { max_rate, tokens: max_rate as u64, last_refill: 0, clock: Stopwatch::start() }
    }

    /// Tokens per second, and the most the bucket holds.
    pub fn max_rate(&self) -> (rate: u32)
        ensures
            rate == self@.max_rate,
    {
        self.max_rate
    }

    /// Tokens in the bucket, as of the last attempt.
    pub fn tokens(&self) -> (tokens: u64)
        ensures
            tokens == self@.tokens,
    {
        self.tokens
    }

    /// The whole tokens due at `now`, held to a number that cannot overflow
    /// when added to the bucket's.
    fn due_at(&self, now: u64) -> (due: u128)
        ensures
            due == self@.due(now as nat),
            due <= 0x2_0000_0000_0000_0000_0000_0000,
    {
        let elapsed: u64 = if now >= self.last_refill {
            now - self.last_refill
        } else {
            0
        };
        let secs: u128 = (elapsed / NANOS_PER_SEC) as u128;
        let millis: u128 = ((elapsed % NANOS_PER_SEC) / NANOS_PER_MILLI) as u128;
        let rate: u128 = self.max_rate as u128;
        assert(secs * rate <= 0x1_0000_0000_0000_0000 * 0x1_0000_0000) by (nonlinear_arith)
            requires
                secs <= 0x1_0000_0000_0000_0000,
                rate <= 0x1_0000_0000,
        ;
        assert(millis * rate <= 1000 * 0x1_0000_0000) by (nonlinear_arith)
            requires
                millis <= 1000,
                rate <= 0x1_0000_0000,
        ;
        secs * rate + millis * rate / 1000
    }

    /// An attempt at the clock reading `now`, in nanoseconds since the
    /// limiter was made: credits what is due, then takes one token if there is
    /// one, and says whether it did.
    pub fn try_acquire_at(&mut self, now: u64) -> (granted: bool)
        requires
            old(self).wf(),
        ensures
            final(self).wf(),
            final(self)@ == old(self)@.after_try(now as nat),
            granted == old(self)@.grants(now as nat),
    {
        let due = self.due_at(now);
        if due > 0 {
            let total: u128 = self.tokens as u128 + due;
            self.tokens = if total > self.max_rate as u128 {
                self.max_rate as u64
            } else {
                total as u64
            };
            self.last_refill = now;
        }
        if self.tokens > 0 {
            self.tokens = self.tokens - 1;
            true
        } else {
            false
        }
    }

    /// An attempt now, by the limiter's own clock. Whatever the clock reads,
    /// the attempt is the one that `try_acquire_at` makes on that reading.
    pub fn try_acquire(&mut self) -> (granted: bool)
        requires
            old(self).wf(),
        ensures
            final(self).wf(),
            exists|now: u64|
                final(self)@ == #[trigger] old(self)@.after_try(now as nat) && granted == old(self)@.grants(now as nat),
    {
        let now = self.clock.elapsed_nanos();
        self.try_acquire_at(now)
    }
}

} // verus!
