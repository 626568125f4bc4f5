//! The global rate limiter: a single monotonically increasing counter of
//! admitted requests, bounded by a fixed ceiling. This is an irreversible
//! global ceiling, not a refillable or window-based budget: once exhausted,
//! the limiter never admits again for the remainder of the process lifetime.

use vstd::prelude::*;
use crate::errors::GateError;

verus! {

/// The abstract state of a rate limiter: how many requests it has admitted
/// so far, and the fixed ceiling it will never admit beyond.
pub struct RateLimiterView {
    pub admitted: nat,
    pub ceiling: nat,
}

/// Whether a check on a limiter in state `rl` admits the request.
pub open spec fn check_admits(rl: RateLimiterView) -> bool {
    rl.admitted < rl.ceiling
}

/// The limiter state after one check: one more admission while below the
/// ceiling, unchanged once the ceiling is reached.
pub open spec fn spec_check(rl: RateLimiterView) -> RateLimiterView {
    if check_admits(rl) {
        RateLimiterView { admitted: rl.admitted + 1, ceiling: rl.ceiling }
    } else {
        rl
    }
}

/// Bounds the total number of admitted requests against a fixed ceiling.
pub struct RateLimiter {
    admitted: u64,
    ceiling: u64,
}

impl View for RateLimiter {
    type V = RateLimiterView;

    closed spec fn view(&self) -> RateLimiterView {
        RateLimiterView { admitted: self.admitted as nat, ceiling: self.ceiling as nat }
    }
}

impl RateLimiter {
    /// The number of admitted requests never exceeds the ceiling.
    #[verifier::type_invariant]
    spec fn wf(self) -> bool {
        self.admitted <= self.ceiling
    }

    /// A fresh limiter that will admit up to `ceiling` requests in total.
    pub fn new(ceiling: u64) -> (r: Self)
        ensures
            r@ == (RateLimiterView { admitted: 0, ceiling: ceiling as nat }),
    {
        RateLimiter { admitted: 0, ceiling }
    }

    /// Admits the request and counts it while the ceiling has not been
    /// reached; refuses it, leaving the counter untouched, once it has.
    pub fn check(&mut self) -> (r: Result<(), GateError>)
        ensures
            final(self)@ == spec_check(old(self)@),
            r is Ok <==> check_admits(old(self)@),
            r is Err ==> r == Err::<(), GateError>(GateError::RateLimitExceeded),
    {
        if self.admitted >= self.ceiling {
            Err(GateError::RateLimitExceeded)
        } else {
            self.admitted = self.admitted + 1;
            Ok(())
        }
    }

    /// How many requests have been admitted so far.
    pub fn admitted_count(&self) -> (r: u64)
        ensures
            r as nat == self@.admitted,
    {
        self.admitted
    }

    /// The fixed admission ceiling.
    pub fn ceiling(&self) -> (r: u64)
        ensures
            r as nat == self@.ceiling,
    {
        self.ceiling
    }
}

/// The limiter state after `n` consecutive checks of a fresh limiter with
/// the given ceiling.
pub open spec fn limiter_after(ceiling: nat, n: nat) -> RateLimiterView
    decreases n,
{
    if n == 0 {
        RateLimiterView { admitted: 0, ceiling }
    } else {
        spec_check(limiter_after(ceiling, (n - 1) as nat))
    }
}

/// Over any sequence of checks of a fresh limiter, the number of admitted
/// results never exceeds the ceiling: exactly the first `ceiling` checks
/// are admitted, and every check after the ceiling-th is refused.
pub proof fn lemma_ceiling_never_exceeded(ceiling: nat, n: nat)
    ensures
        limiter_after(ceiling, n).ceiling == ceiling,
        limiter_after(ceiling, n).admitted == if n <= ceiling { n } else { ceiling },
        limiter_after(ceiling, n).admitted <= ceiling,
        n >= ceiling ==> !check_admits(limiter_after(ceiling, n)),
    decreases n,
{
    if n > 0 {
        lemma_ceiling_never_exceeded(ceiling, (n - 1) as nat);
    }
}

} // verus!
