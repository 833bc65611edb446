//! What a send attempt reports, and the choices made around sending.

use crate::rate_limiter::RateLimiter;
use vstd::prelude::*;

verus! {

/// The outcome of one send attempt.
#[derive(Debug, Clone)]
pub struct InjectionResult {
    /// Whether the packet was sent.
    pub success: bool,
    /// Bytes sent.
    pub bytes_sent: usize,
    /// Why the packet was not sent.
    pub error: Option<String>,
}

impl InjectionResult {
    /// The result of a send of `bytes_sent` bytes that succeeded.
    pub fn sent(bytes_sent: usize) -> (result: InjectionResult)
        ensures
            result.success,
            result.bytes_sent == bytes_sent,
            result.error is None,
    {
        InjectionResult { success: true, bytes_sent, error: None }
    }

    /// The result of a send that failed for the given reason: nothing was
    /// sent.
    pub fn failed(reason: String) -> (result: InjectionResult)
        ensures
            !result.success,
            result.bytes_sent == 0,
            result.error == Some(reason),
    {
        InjectionResult { success: false, bytes_sent: 0, error: Some(reason) }
    }

    /// The result of a send of `packet_len` bytes, from what the sender
    /// said: the whole packet was sent, or nothing was and the error says
    /// why.
    pub fn from_outcome(packet_len: usize, outcome: Result<(), String>) -> (result: InjectionResult)
        ensures
            result.success == (outcome is Ok),
            outcome is Ok ==> result.bytes_sent == packet_len && result.error is None,
            outcome matches Err(reason) ==> result.bytes_sent == 0 && result.error == Some(reason),
    {
        match outcome {
            Ok(()) => InjectionResult::sent(packet_len),
            Err(reason) => InjectionResult::failed(reason),
        }
    }
}

/// Counters of a sender.
#[derive(Debug, Clone, Copy, PartialEq, Eq, Structural)]
pub struct InjectionStats {
    /// Packets sent.
    pub packets_sent: u64,
    /// Packets dropped.
    pub packets_dropped: u64,
    /// Bytes sent.
    pub bytes_sent: u64,
    /// Sends that failed.
    pub errors: u64,
}

impl InjectionStats {
    /// Counters that have counted nothing.
    pub fn zero() -> (stats: InjectionStats)
        ensures
            stats == (InjectionStats { packets_sent: 0, packets_dropped: 0, bytes_sent: 0, errors: 0 }),
    {
        InjectionStats { packets_sent: 0, packets_dropped: 0, bytes_sent: 0, errors: 0 }
    }
}

/// Deals sends out to a number of senders in turn.
pub struct BatchInjector {
    injectors: usize,
    current_index: usize,
}

impl BatchInjector {
    /// The number of senders.
    pub closed spec fn spec_injectors(&self) -> nat {
        self.injectors as nat
    }

    /// How many sends were dealt out, as far as a counter can count.
    pub closed spec fn spec_dealt(&self) -> nat {
        self.current_index as nat
    }

    /// A dealer for `num_injectors` senders, of which there is at least one.
    pub fn new(num_injectors: usize) -> (batch: BatchInjector)
        requires
            num_injectors > 0,
        ensures
            batch.spec_injectors() == num_injectors,
            batch.spec_dealt() == 0,
    {
        BatchInjector { injectors: num_injectors, current_index: 0 }
    }

    /// The sender whose turn it is, and moves the turn on. The count of
    /// turns starts over after `usize::MAX`.
    pub fn next_injector(&mut self) -> (index: usize)
        requires
            old(self).spec_injectors() > 0,
        ensures
            index == old(self).spec_dealt() % old(self).spec_injectors(),
            index < old(self).spec_injectors(),
            final(self).spec_injectors() == old(self).spec_injectors(),
            final(self).spec_dealt() == if old(self).spec_dealt() == usize::MAX {
                0
            } else {
                old(self).spec_dealt() + 1
            },
    {
        let index = self.current_index % self.injectors;
        self.current_index = self.current_index.wrapping_add(1);
        index
    }
}

/// A guard in front of a sender that lets through no more sends than a token
/// bucket grants.
pub struct RateLimitedInjector {
    rate_limiter: RateLimiter,
}

impl RateLimitedInjector {
    /// The guard's token bucket.
    pub closed spec fn limiter(&self) -> RateLimiter {
        self.rate_limiter
    }

    /// A guard that lets through `max_rate` sends a second.
    pub fn new(max_rate: u32) -> (guard: RateLimitedInjector)
        ensures
            guard.limiter().wf(),
            guard.limiter()@ == crate::rate_limiter::BucketState::full(max_rate as nat),
    {
        RateLimitedInjector { rate_limiter: RateLimiter::new(max_rate) }
    }

    /// Decides at `now` on the guard's clock whether a send may go ahead:
    /// `None` if it may, else the result to report in its place.
    pub fn clear_to_send_at(&mut self, now: u64) -> (refusal: Option<InjectionResult>)
        requires
            old(self).limiter().wf(),
        ensures
            final(self).limiter().wf(),
            final(self).limiter()@ == old(self).limiter()@.after_try(now as nat),
            refusal is None <==> old(self).limiter()@.grants(now as nat),
            refusal matches Some(result) ==> !result.success && result.bytes_sent == 0
                && result.error is Some && result.error->Some_0@ == "Rate limit exceeded"@,
    {
        if self.rate_limiter.try_acquire_at(now) {
            None
        } else {
            Some(InjectionResult::failed("Rate limit exceeded".to_string()))
        }
    }

    /// Decides now whether a send may go ahead. Whatever the clock reads,
    /// this is `clear_to_send_at` on that reading.
    pub fn clear_to_send(&mut self) -> (refusal: Option<InjectionResult>)
        requires
            old(self).limiter().wf(),
        ensures
            final(self).limiter().wf(),
            exists|now: u64|
                final(self).limiter()@ == #[trigger] old(self).limiter()@.after_try(now as nat)
                    && (refusal is None <==> old(self).limiter()@.grants(now as nat)),
            refusal matches Some(result) ==> !result.success && result.bytes_sent == 0
                && result.error is Some && result.error->Some_0@ == "Rate limit exceeded"@,
    {
        if self.rate_limiter.try_acquire() {
            None
        } else {
            Some(InjectionResult::failed("Rate limit exceeded".to_string()))
        }
    }
}

} // verus!
