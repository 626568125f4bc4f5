//! A request-admission gatekeeper: every inbound request passes a global
//! rate limiter, a concurrency limiter and a circuit breaker before it may
//! invoke a downstream dependency, and the concurrency slot is released on
//! every exit path.

pub mod breaker;
pub mod errors;
pub mod gatekeeper;
pub mod rate_limiter;
pub mod semaphore;
