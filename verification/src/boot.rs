//! The boot-wait protocol: a freshly provisioned machine is probed over SSH
//! once a second, up to a fixed number of attempts.
//!
//! The caller performs one probe, hands the outcome to `step`, and obeys the
//! decision: sleep a second and retry, settle (sleep a grace period for
//! late start-up scripts, then proceed), or give up. The count of failing
//! attempts is bounded here, so the wait cannot run forever.

use vstd::prelude::*;

verus! {

/// The most probes a boot wait may make.
pub const MAX_BOOT_ATTEMPTS: u8 = 60;

/// What to do after one probe.
#[derive(Debug, Clone, Copy, PartialEq, Eq, Structural)]
pub enum BootDecision {
    /// Sleep one second and probe again.
    Retry,
    /// The machine answered: sleep the settle period, then proceed.
    Settle,
    /// Too many failures: the machine never booted; fatal for this job.
    Timeout,
}

/// The state of one boot wait.
#[derive(Debug, Clone, Copy, PartialEq, Eq, Structural)]
pub struct BootWait {
    /// How many probes have been made.
    pub attempts: u8,
}

impl BootWait {
    /// A fresh wait, before any probe.
    pub fn new() -> (r: BootWait)
        ensures
            r.attempts == 0,
    {
        BootWait { attempts: 0 }
    }

    /// Record one probe's outcome and decide what follows: success settles
    /// at once, failure retries until the attempt bound is spent.
    pub fn step(&mut self, probe_ok: bool) -> (r: BootDecision)
        requires
            old(self).attempts < 60,
        ensures
            final (self).attempts == old(self).attempts + 1,
            probe_ok <==> r is Settle,
            !probe_ok && final (self).attempts < 60 <==> r is Retry,
            !probe_ok && final (self).attempts == 60 <==> r is Timeout,
    {
        self.attempts = self.attempts + 1;
        if probe_ok {
            BootDecision::Settle
        } else if self.attempts < MAX_BOOT_ATTEMPTS {
            BootDecision::Retry
        } else {
            BootDecision::Timeout
        }
    }

    /// The whole wait over a given run of probe outcomes: what it decides
    /// and how many probes it spends. It succeeds exactly when one of the
    /// first sixty probes succeeds, at the first such probe — so success
    /// comes within one retry-sleep per failing probe plus the settle
    /// period — and it fails after exactly sixty failing probes.
    pub fn evaluate(outcomes: &Vec<bool>) -> (r: (BootDecision, u8))
        requires
            outcomes@.len() > 0,
        ensures
            r.0 is Settle <==> exists|i: int|
                0 <= i < outcomes@.len() && i < 60 && outcomes@[i],
            r.0 is Settle ==> {
                &&& 0 < r.1 <= 60
                &&& outcomes@[r.1 - 1]
                &&& forall|j: int| 0 <= j < r.1 - 1 ==> !outcomes@[j]
            },
            !(r.0 is Settle) ==> r.0 is Timeout || r.1 == outcomes@.len(),
            r.0 is Timeout ==> r.1 == 60 && forall|j: int| 0 <= j < 60 ==> !outcomes@[j],
    {
        let mut wait = BootWait::new();
        let mut i: usize = 0;
        while i < outcomes.len() && wait.attempts < 60
            invariant
                i <= outcomes@.len(),
                wait.attempts == i,
                i < 60,
                forall|j: int| 0 <= j < i ==> !outcomes@[j],
            decreases outcomes@.len() - i,
        {
            let decision = wait.step(outcomes[i]);
            i += 1;
            match decision {
                BootDecision::Settle => {
                    return (BootDecision::Settle, wait.attempts);
                },
                BootDecision::Timeout => {
                    return (BootDecision::Timeout, wait.attempts);
                },
                BootDecision::Retry => {},
            }
        }
        (BootDecision::Retry, wait.attempts)
    }
}

} // verus!
