//! Health probing: decide backend readiness from a bounded series of
//! TCP connect attempts.
//!
//! The caller performs the actual connect against the loopback
//! interface and sleeps between attempts; the probe below only counts
//! attempts and decides, after each outcome, whether the backend is
//! ready, whether to retry after the configured delay, or whether the
//! attempt budget is spent.  `check_backend_health` states the overall
//! answer: ready exactly when some attempt within the budget
//! succeeds.

use vstd::prelude::*;

verus! {

/// Decision after one connect attempt.
#[derive(Clone, Copy, Debug, PartialEq, Eq, Structural)]
pub enum ProbeStep {
    /// The attempt succeeded: the backend is ready.
    Healthy,
    /// The attempt failed but budget remains: sleep, then retry.
    RetryAfterDelay,
    /// The attempt failed and the budget is spent: give up.
    Unhealthy,
}

/// Retry state of the health checker: how many attempts of the fixed
/// budget have been spent.
pub struct HealthProbe {
    max_attempts: usize,
    used: usize,
}

impl HealthProbe {
    /// Budget is positive and not yet exhausted.
    pub closed spec fn wf(self) -> bool {
        1 <= self.max_attempts && self.used < self.max_attempts
    }

    /// The attempt budget.
    pub closed spec fn max_spec(self) -> int {
        self.max_attempts as int
    }

    /// Attempts spent so far.
    pub closed spec fn used_spec(self) -> int {
        self.used as int
    }

    pub fn new(max_attempts: usize) -> (p: Self)
        requires
            max_attempts >= 1,
        ensures
            p.wf(),
            p.max_spec() == max_attempts,
            p.used_spec() == 0,
    {
        HealthProbe { max_attempts, used: 0 }
    }

    /// The attempt about to be made (the number already spent).
    pub fn attempts_used(&self) -> (n: usize)
        ensures
            n == self.used_spec(),
    {
        self.used
    }

    /// Record the outcome of one connect attempt and decide how to go
    /// on: success means ready at once; a failure is retried only
    /// while budget remains.
    pub fn record_attempt(&mut self, connected: bool) -> (v: ProbeStep)
        requires
            old(self).wf(),
        ensures
            final(self).max_spec() == old(self).max_spec(),
            final(self).used_spec() == old(self).used_spec() + 1,
            v == ProbeStep::Healthy <==> connected,
            v == ProbeStep::RetryAfterDelay <==> (!connected && old(self).used_spec() + 1
                < old(self).max_spec()),
            v == ProbeStep::Unhealthy <==> (!connected && old(self).used_spec() + 1 >= old(
                self,
            ).max_spec()),
            v == ProbeStep::RetryAfterDelay ==> final(self).wf(),
    {
        self.used = self.used + 1;
        if connected {
            ProbeStep::Healthy
        } else if self.used < self.max_attempts {
            ProbeStep::RetryAfterDelay
        } else {
            ProbeStep::Unhealthy
        }
    }
}

/// Overall answer of the health check: given, for each attempt of the
/// budget, whether its connect would succeed, the backend counts as
/// healthy exactly when some attempt succeeds.  Attempts after the
/// first success are never made.
pub fn check_backend_health(max_attempts: usize, outcomes: &Vec<bool>) -> (r: bool)
    requires
        max_attempts >= 1,
        outcomes@.len() == max_attempts,
    ensures
        r <==> exists|i: int| 0 <= i < max_attempts && outcomes@[i],
{
    let mut probe = HealthProbe::new(max_attempts);
    loop
        invariant
            probe.wf(),
            probe.max_spec() == max_attempts,
            outcomes@.len() == max_attempts,
            forall|i: int| 0 <= i < probe.used_spec() ==> !outcomes@[i],
        decreases max_attempts - probe.used_spec(),
    {
        let ghost prev = probe.used_spec();
        let connected = outcomes[probe.attempts_used()];
        match probe.record_attempt(connected) {
            ProbeStep::Healthy => {
                assert(outcomes@[prev]);
                return true;
            },
            ProbeStep::RetryAfterDelay => {
                assert forall|i: int| 0 <= i < probe.used_spec() implies !outcomes@[i] by {
                    if i < prev {
                    } else {
                        assert(i == prev);
                    }
                }
            },
            ProbeStep::Unhealthy => {
                assert forall|i: int| 0 <= i < max_attempts implies !outcomes@[i] by {
                    if i < prev {
                    } else {
                        assert(i == prev);
                    }
                }
                return false;
            },
        }
    }
}

} // verus!
