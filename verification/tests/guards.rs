use resilience::breaker::CircuitBreaker;
use resilience::breaker::CircuitBreakerState;
use resilience::errors::GateError;
use resilience::rate_limiter::RateLimiter;
use resilience::semaphore::Semaphore;

#[test]
fn rate_limiter_admits_up_to_ceiling() {
    let mut rl = RateLimiter::new(3);
    assert_eq!(rl.ceiling(), 3);
    for _ in 0..3 {
        assert!(rl.check().is_ok());
    }
    assert_eq!(rl.admitted_count(), 3);
    // The call after the ceiling-th, and every call after it, is refused
    // and the counter no longer moves.
    assert_eq!(rl.check(), Err(GateError::RateLimitExceeded));
    assert_eq!(rl.check(), Err(GateError::RateLimitExceeded));
    assert_eq!(rl.admitted_count(), 3);
}

#[test]
fn rate_limiter_with_zero_ceiling_never_admits() {
    let mut rl = RateLimiter::new(0);
    assert_eq!(rl.check(), Err(GateError::RateLimitExceeded));
    assert_eq!(rl.admitted_count(), 0);
}

#[test]
fn semaphore_in_flight_stays_within_capacity() {
    let mut s = Semaphore::new(2);
    assert_eq!(s.capacity(), 2);
    assert!(s.acquire());
    assert!(s.acquire());
    assert_eq!(s.in_flight(), 2);
    // Every slot is held: a further acquire is refused and does not move
    // the count.
    assert!(!s.acquire());
    assert_eq!(s.in_flight(), 2);
    s.release();
    assert_eq!(s.in_flight(), 1);
    assert!(s.acquire());
    assert_eq!(s.in_flight(), 2);
    s.release();
    s.release();
    assert_eq!(s.in_flight(), 0);
}

#[test]
fn semaphore_with_zero_capacity_never_grants() {
    let mut s = Semaphore::new(0);
    assert!(!s.acquire());
    assert_eq!(s.in_flight(), 0);
}

#[test]
fn breaker_opens_after_five_consecutive_failures() {
    let mut b = CircuitBreaker::new();
    assert_eq!(b.threshold(), 5);
    for i in 0..4 {
        b.update_state(Err(()));
        assert_eq!(b.state(), CircuitBreakerState::Closed);
        assert_eq!(b.failure_count(), i + 1);
        assert!(b.can_request());
    }
    b.update_state(Err(()));
    assert_eq!(b.failure_count(), 5);
    assert_eq!(b.state(), CircuitBreakerState::Open);
    assert!(!b.can_request());
}

#[test]
fn breaker_open_to_half_open_to_closed() {
    let mut b = CircuitBreaker::with_threshold(1);
    b.update_state(Err(()));
    assert_eq!(b.state(), CircuitBreakerState::Open);
    // A further failure while open probes recovery.
    b.update_state(Err(()));
    assert_eq!(b.state(), CircuitBreakerState::HalfOpen);
    assert!(b.can_request());
    // A success while half-open closes the breaker again.
    b.update_state(Ok(()));
    assert_eq!(b.state(), CircuitBreakerState::Closed);
    assert!(b.can_request());
    assert_eq!(b.failure_count(), 2);
    assert_eq!(b.success_count(), 1);
}

#[test]
fn breaker_success_while_closed_changes_nothing_but_the_counter() {
    let mut b = CircuitBreaker::new();
    b.update_state(Ok(()));
    b.update_state(Ok(()));
    assert_eq!(b.state(), CircuitBreakerState::Closed);
    assert_eq!(b.success_count(), 2);
    assert_eq!(b.failure_count(), 0);
    assert!(b.can_request());
}

#[test]
fn breaker_success_while_open_stays_open() {
    let mut b = CircuitBreaker::with_threshold(1);
    b.update_state(Err(()));
    assert_eq!(b.state(), CircuitBreakerState::Open);
    b.update_state(Ok(()));
    assert_eq!(b.state(), CircuitBreakerState::Open);
    assert_eq!(b.success_count(), 1);
}

#[test]
fn breaker_failure_while_half_open_stays_half_open() {
    let mut b = CircuitBreaker::with_threshold(1);
    b.update_state(Err(()));
    b.update_state(Err(()));
    assert_eq!(b.state(), CircuitBreakerState::HalfOpen);
    // The counters are cumulative and never reset, so the closed-state
    // threshold rule does not reapply while half-open.
    b.update_state(Err(()));
    assert_eq!(b.state(), CircuitBreakerState::HalfOpen);
    assert_eq!(b.failure_count(), 3);
}

#[test]
fn breaker_counters_never_reset_across_transitions() {
    let mut b = CircuitBreaker::with_threshold(2);
    b.update_state(Err(()));
    b.update_state(Err(()));
    assert_eq!(b.state(), CircuitBreakerState::Open);
    b.update_state(Err(()));
    b.update_state(Ok(()));
    assert_eq!(b.state(), CircuitBreakerState::Closed);
    assert_eq!(b.failure_count(), 3);
    assert_eq!(b.success_count(), 1);
}
