//! The error taxonomy of the gatekeeper: three admission denials, which are
//! decided locally before the downstream dependency is invoked, and one
//! failure surfaced from the downstream operation itself. None is fatal;
//! every variant is a per-request outcome returned to the caller.

use vstd::prelude::*;

verus! {

/// Why a request was not answered successfully.
#[derive(Clone, Copy, Debug, PartialEq, Eq, Structural)]
pub enum GateError {
    /// The global admission ceiling has been reached; no further request
    /// will ever be admitted within the process lifetime.
    RateLimitExceeded,
    /// Every concurrency slot is currently held by an in-flight request.
    ConcurrencyLimitExceeded,
    /// The circuit breaker is open: the downstream dependency is deemed
    /// unhealthy and the call is vetoed outright.
    CircuitOpen,
    /// The downstream operation itself was invoked and failed.
    UpstreamFailure,
}

} // verus!
