//! The circuit breaker: a three-state machine that tracks the health of the
//! downstream dependency through two cumulative counters, which are never
//! reset within the process lifetime. State transitions occur only in
//! response to a recorded outcome; there is no timer-driven transition. In
//! particular the breaker leaves `Open` only when a further failure is
//! recorded while `Open`, which moves it to `HalfOpen` to probe recovery;
//! a success recorded while `Open` leaves the state `Open`.

use vstd::prelude::*;

verus! {

/// The health states of the breaker.
#[derive(Clone, Copy, Debug, PartialEq, Eq, Structural)]
pub enum CircuitBreakerState {
    /// Normal operation: calls are permitted.
    Closed,
    /// The dependency is deemed unhealthy: calls are rejected outright.
    Open,
    /// Calls are permitted experimentally to probe recovery.
    HalfOpen,
}

/// The default number of cumulative failures at which a closed breaker
/// opens.
pub const DEFAULT_FAILURE_THRESHOLD: u64 = 5;

/// The abstract state of a breaker: its health state, the two cumulative
/// outcome counters, and the fixed failure threshold.
pub struct CircuitBreakerView {
    pub state: CircuitBreakerState,
    pub failures: nat,
    pub successes: nat,
    pub threshold: nat,
}

/// A fresh breaker: closed, with both counters at zero.
pub open spec fn fresh_breaker(threshold: nat) -> CircuitBreakerView {
    CircuitBreakerView {
        state: CircuitBreakerState::Closed,
        failures: 0,
        successes: 0,
        threshold,
    }
}

/// The breaker state after recording one outcome. A success increments the
/// success counter and closes a half-open breaker; a failure increments the
/// failure counter, opens a closed breaker whose cumulative failures have
/// reached the threshold, and moves an open breaker to half-open.
pub open spec fn spec_update(b: CircuitBreakerView, success: bool) -> CircuitBreakerView {
    if success {
        CircuitBreakerView {
            successes: b.successes + 1,
            state: if b.state == CircuitBreakerState::HalfOpen {
                CircuitBreakerState::Closed
            } else {
                b.state
            },
            ..b
        }
    } else {
        CircuitBreakerView {
            failures: b.failures + 1,
            state: if b.state == CircuitBreakerState::Closed && b.failures + 1 >= b.threshold {
                CircuitBreakerState::Open
            } else if b.state == CircuitBreakerState::Open {
                CircuitBreakerState::HalfOpen
            } else {
                b.state
            },
            ..b
        }
    }
}

/// Whether a breaker in state `b` permits a call: always, unless it is open.
pub open spec fn spec_can_request(b: CircuitBreakerView) -> bool {
    b.state != CircuitBreakerState::Open
}

/// Tracks downstream health and vetoes calls while the dependency is deemed
/// unhealthy.
pub struct CircuitBreaker {
    failed_requests: u64,
    success_requests: u64,
    state: CircuitBreakerState,
    failure_threshold: u64,
}

impl View for CircuitBreaker {
    type V = CircuitBreakerView;

    closed spec fn view(&self) -> CircuitBreakerView {
        CircuitBreakerView {
            state: self.state,
            failures: self.failed_requests as nat,
            successes: self.success_requests as nat,
            threshold: self.failure_threshold as nat,
        }
    }
}

impl CircuitBreaker {
    /// A fresh breaker with the default failure threshold.
    pub fn new() -> (r: Self)
        ensures
            r@ == fresh_breaker(DEFAULT_FAILURE_THRESHOLD as nat),
    {
        CircuitBreaker {
            failed_requests: 0,
            success_requests: 0,
            state: CircuitBreakerState::Closed,
            failure_threshold: DEFAULT_FAILURE_THRESHOLD,
        }
    }

    /// A fresh breaker that opens once the cumulative failures reach
    /// `threshold`.
    pub fn with_threshold(threshold: u64) -> (r: Self)
        ensures
            r@ == fresh_breaker(threshold as nat),
    {
        CircuitBreaker {
            failed_requests: 0,
            success_requests: 0,
            state: CircuitBreakerState::Closed,
            failure_threshold: threshold,
        }
    }

    /// Records one downstream outcome, `Ok` for a success and `Err` for a
    /// failure, stepping the counters and the state machine.
    pub fn update_state(&mut self, result: Result<(), ()>)
        requires
            result is Ok ==> old(self)@.successes < u64::MAX,
            result is Err ==> old(self)@.failures < u64::MAX,
        ensures
            final(self)@ == spec_update(old(self)@, result is Ok),
    {
        match result {
            Ok(()) => {
                self.success_requests = self.success_requests + 1;
                if self.state == CircuitBreakerState::HalfOpen {
                    self.state = CircuitBreakerState::Closed;
                }
            },
            Err(()) => {
                self.failed_requests = self.failed_requests + 1;
                if self.state == CircuitBreakerState::Closed
                    && self.failed_requests >= self.failure_threshold {
                    self.state = CircuitBreakerState::Open;
                } else if self.state == CircuitBreakerState::Open {
                    self.state = CircuitBreakerState::HalfOpen;
                }
            },
        }
    }

    /// Whether a call may proceed: true unless the breaker is open.
    pub fn can_request(&self) -> (r: bool)
        ensures
            r == spec_can_request(self@),
    {
        match self.state {
            CircuitBreakerState::Open => false,
            _ => true,
        }
    }

    /// The current health state.
    pub fn state(&self) -> (r: CircuitBreakerState)
        ensures
            r == self@.state,
    {
        self.state
    }

    /// The cumulative number of recorded failures.
    pub fn failure_count(&self) -> (r: u64)
        ensures
            r as nat == self@.failures,
    {
        self.failed_requests
    }

    /// The cumulative number of recorded successes.
    pub fn success_count(&self) -> (r: u64)
        ensures
            r as nat == self@.successes,
    {
        self.success_requests
    }

    /// The fixed failure threshold.
    pub fn threshold(&self) -> (r: u64)
        ensures
            r as nat == self@.threshold,
    {
        self.failure_threshold
    }
}

/// The breaker state after `n` consecutive recorded failures.
pub open spec fn breaker_after_failures(b: CircuitBreakerView, n: nat) -> CircuitBreakerView
    decreases n,
{
    if n == 0 {
        b
    } else {
        spec_update(breaker_after_failures(b, (n - 1) as nat), false)
    }
}

/// From a fresh breaker, consecutive failures leave it closed while their
/// number is below the threshold; the threshold-th failure opens it, after
/// which no call may proceed.
pub proof fn lemma_consecutive_failures_open(threshold: nat, n: nat)
    requires
        threshold >= 1,
    ensures
        breaker_after_failures(fresh_breaker(threshold), n).failures == n,
        breaker_after_failures(fresh_breaker(threshold), n).threshold == threshold,
        n < threshold ==> breaker_after_failures(fresh_breaker(threshold), n).state
            == CircuitBreakerState::Closed,
        n == threshold ==> breaker_after_failures(fresh_breaker(threshold), n).state
            == CircuitBreakerState::Open,
        n == threshold ==> !spec_can_request(breaker_after_failures(fresh_breaker(threshold), n)),
    decreases n,
{
    if n > 0 {
        lemma_consecutive_failures_open(threshold, (n - 1) as nat);
    }
}

/// From `Open`, the next recorded failure moves the breaker to `HalfOpen`,
/// and a success recorded then moves it to `Closed`, after which calls may
/// proceed again.
pub proof fn lemma_open_recovers_through_half_open(b: CircuitBreakerView)
    requires
        b.state == CircuitBreakerState::Open,
    ensures
        spec_update(b, false).state == CircuitBreakerState::HalfOpen,
        spec_update(spec_update(b, false), true).state == CircuitBreakerState::Closed,
        spec_can_request(spec_update(spec_update(b, false), true)),
{
}

/// Recording a success while the breaker is already closed never changes
/// the state.
pub proof fn lemma_success_while_closed_is_idempotent(b: CircuitBreakerView)
    requires
        b.state == CircuitBreakerState::Closed,
    ensures
        spec_update(b, true).state == CircuitBreakerState::Closed,
{
}

} // verus!
