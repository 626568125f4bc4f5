//! The gatekeeper: composes the three guards in a fixed order in front of a
//! downstream operation. `try_admit` runs the guard checks and, when all pass,
//! holds one concurrency slot for the caller; `complete` records the
//! downstream outcome into the circuit breaker and gives the slot back.
//! The downstream call itself is the sole suspension point, so it is made
//! by the caller between the two, with the slot held; the guards themselves
//! are synchronous.
//!
//! Guard state is touched strictly in pipeline order: a rate-limit denial
//! touches nothing else; a concurrency denial leaves the rate-limiter
//! admission counted (it is not rolled back); a circuit veto gives the
//! just-acquired slot back before returning, so the slot is released on
//! every exit path.

use vstd::prelude::*;
use crate::breaker::CircuitBreaker;
use crate::breaker::CircuitBreakerState;
use crate::breaker::CircuitBreakerView;
use crate::breaker::DEFAULT_FAILURE_THRESHOLD;
use crate::breaker::fresh_breaker;
use crate::breaker::spec_update;
use crate::errors::GateError;
use crate::rate_limiter::RateLimiter;
use crate::rate_limiter::RateLimiterView;
use crate::rate_limiter::check_admits;
use crate::rate_limiter::spec_check;
use crate::semaphore::Semaphore;
use crate::semaphore::SemaphoreView;
use crate::semaphore::acquire_grants;
use crate::semaphore::spec_acquire;
use crate::semaphore::spec_release;

verus! {

/// The default admission ceiling of the rate limiter.
pub const DEFAULT_RATE_CEILING: u64 = 1000;

/// The default number of concurrency slots.
pub const DEFAULT_CONCURRENCY_CAPACITY: u64 = 100;

/// The abstract state of the gatekeeper: the states of its three guards.
pub struct GatekeeperView {
    pub rate: RateLimiterView,
    pub semaphore: SemaphoreView,
    pub breaker: CircuitBreakerView,
}

/// The admission decision for a gatekeeper in state `g`: the first guard in
/// pipeline order that refuses names the denial; when all three pass, the
/// request is admitted.
pub open spec fn admit_result(g: GatekeeperView) -> Result<(), GateError> {
    if !check_admits(g.rate) {
        Err(GateError::RateLimitExceeded)
    } else if !acquire_grants(g.semaphore) {
        Err(GateError::ConcurrencyLimitExceeded)
    } else if g.breaker.state == CircuitBreakerState::Open {
        Err(GateError::CircuitOpen)
    } else {
        Ok(())
    }
}

/// The gatekeeper state after one admission attempt. A rate-limit denial
/// touches no guard; any later outcome counts the admission; only a full
/// admission leaves a slot held, since a circuit veto gives the slot back
/// at once.
pub open spec fn admit_post(g: GatekeeperView) -> GatekeeperView {
    if !check_admits(g.rate) {
        g
    } else if !acquire_grants(g.semaphore) {
        GatekeeperView { rate: spec_check(g.rate), ..g }
    } else if g.breaker.state == CircuitBreakerState::Open {
        GatekeeperView { rate: spec_check(g.rate), ..g }
    } else {
        GatekeeperView { rate: spec_check(g.rate), semaphore: spec_acquire(g.semaphore), ..g }
    }
}

/// The gatekeeper state after completing an admitted request: the outcome
/// is recorded into the breaker and the held slot is released.
pub open spec fn complete_post(g: GatekeeperView, success: bool) -> GatekeeperView {
    GatekeeperView {
        breaker: spec_update(g.breaker, success),
        semaphore: spec_release(g.semaphore),
        ..g
    }
}

/// Evaluates every inbound request against the three guards, in a fixed
/// order, before the downstream dependency may be invoked. It exclusively
/// owns the guards: they are never mutated except through `try_admit` and
/// `complete`.
pub struct Gatekeeper {
    rate: RateLimiter,
    semaphore: Semaphore,
    breaker: CircuitBreaker,
}

impl View for Gatekeeper {
    type V = GatekeeperView;

    closed spec fn view(&self) -> GatekeeperView {
        GatekeeperView { rate: self.rate@, semaphore: self.semaphore@, breaker: self.breaker@ }
    }
}

impl Gatekeeper {
    /// A fresh gatekeeper with the given admission ceiling, concurrency
    /// capacity and failure threshold, all fixed at construction.
    pub fn new(ceiling: u64, capacity: u64, threshold: u64) -> (r: Self)
        ensures
            r@.rate == (RateLimiterView { admitted: 0, ceiling: ceiling as nat }),
            r@.semaphore == (SemaphoreView { in_flight: 0, capacity: capacity as nat }),
            r@.breaker == fresh_breaker(threshold as nat),
    {
        Gatekeeper {
            rate: RateLimiter::new(ceiling),
            semaphore: Semaphore::new(capacity),
            breaker: CircuitBreaker::with_threshold(threshold),
        }
    }

    /// Runs the guard pipeline for one request: the rate limiter, then the
    /// concurrency limiter, then the circuit breaker. On `Ok` one
    /// concurrency slot is held and the caller must invoke the downstream
    /// operation and then call `complete` exactly once with its outcome; on
    /// a denial no slot is held and the downstream operation must not be
    /// invoked.
    pub fn try_admit(&mut self) -> (r: Result<(), GateError>)
        ensures
            r == admit_result(old(self)@),
            final(self)@ == admit_post(old(self)@),
            r is Ok ==> final(self)@.semaphore.in_flight >= 1,
    {
        if let Err(denial) = self.rate.check() {
            return Err(denial);
        }
        if !self.semaphore.acquire() {
            return Err(GateError::ConcurrencyLimitExceeded);
        }
        if !self.breaker.can_request() {
            self.semaphore.release();
            return Err(GateError::CircuitOpen);
        }
        Ok(())
    }

    /// Completes an admitted request: records the downstream outcome, `Ok`
    /// for a success and `Err` for a failure, into the circuit breaker,
    /// then releases the held concurrency slot — in that order, and on
    /// every outcome. Returns `Ok` for a successful outcome and
    /// `UpstreamFailure` for a failed one.
    pub fn complete(&mut self, result: Result<(), ()>) -> (r: Result<(), GateError>)
        requires
            old(self)@.semaphore.in_flight >= 1,
            result is Ok ==> old(self)@.breaker.successes < u64::MAX,
            result is Err ==> old(self)@.breaker.failures < u64::MAX,
        ensures
            final(self)@ == complete_post(old(self)@, result is Ok),
            r is Ok <==> result is Ok,
            r is Err ==> r == Err::<(), GateError>(GateError::UpstreamFailure),
    {
        self.breaker.update_state(result);
        self.semaphore.release();
        match result {
            Ok(()) => Ok(()),
            Err(()) => Err(GateError::UpstreamFailure),
        }
    }

    /// How many requests the rate limiter has admitted so far.
    pub fn admitted_count(&self) -> (r: u64)
        ensures
            r as nat == self@.rate.admitted,
    {
        self.rate.admitted_count()
    }

    /// How many concurrency slots are currently held.
    pub fn in_flight(&self) -> (r: u64)
        ensures
            r as nat == self@.semaphore.in_flight,
    {
        self.semaphore.in_flight()
    }

    /// The current health state of the circuit breaker.
    pub fn breaker_state(&self) -> (r: CircuitBreakerState)
        ensures
            r == self@.breaker.state,
    {
        self.breaker.state()
    }

    /// The cumulative number of failures the breaker has recorded.
    pub fn failure_count(&self) -> (r: u64)
        ensures
            r as nat == self@.breaker.failures,
    {
        self.breaker.failure_count()
    }

    /// The cumulative number of successes the breaker has recorded.
    pub fn success_count(&self) -> (r: u64)
        ensures
            r as nat == self@.breaker.successes,
    {
        self.breaker.success_count()
    }
}

impl Default for Gatekeeper {
    /// A gatekeeper with the default configuration: a rate ceiling of 1000,
    /// 100 concurrency slots, and a failure threshold of 5.
    fn default() -> (r: Self)
        ensures
            r@.rate == (RateLimiterView {
                admitted: 0,
                ceiling: DEFAULT_RATE_CEILING as nat,
            }),
            r@.semaphore == (SemaphoreView {
                in_flight: 0,
                capacity: DEFAULT_CONCURRENCY_CAPACITY as nat,
            }),
            r@.breaker == fresh_breaker(DEFAULT_FAILURE_THRESHOLD as nat),
    {
        Gatekeeper::new(DEFAULT_RATE_CEILING, DEFAULT_CONCURRENCY_CAPACITY,
            DEFAULT_FAILURE_THRESHOLD)
    }
}

} // verus!
