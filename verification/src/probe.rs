//! The bounded readiness probe.
//!
//! The driver issues one short-timeout request to the backend's root
//! URL per polling interval and feeds each outcome into the state kept
//! here; the probe succeeds on the first success response and gives up
//! once the attempt budget is exhausted. An individual failed request
//! means "not ready yet", never a fatal error.

use vstd::prelude::*;
use crate::errors::LauncherError;

verus! {

/// How many readiness requests are attempted before giving up.
pub const READY_ATTEMPT_BUDGET: u32 = 30;

/// The pause between readiness requests, in milliseconds.
pub const READY_POLL_INTERVAL_MS: u64 = 1000;

/// The outcome of one readiness request.
#[derive(Debug, Clone, Copy, PartialEq, Eq)]
pub enum ProbeOutcome {
    /// The backend answered with a success status code.
    Success,
    /// The request failed or the answer was not a success status:
    /// connection refused, timeout, server error.
    Failure,
}

/// What the driver must do after feeding one outcome to the probe.
#[derive(Debug, Clone, Copy, PartialEq, Eq)]
pub enum ProbeVerdict {
    /// The backend is ready; `attempts` requests were made in all.
    Ready { attempts: u32 },
    /// Not ready yet and budget remains: wait one interval, try again.
    Continue,
    /// The budget is exhausted without a success response.
    TimedOut,
}

/// The probe's progress: how many attempts its budget allows and how
/// many have been consumed.
#[derive(Debug, Clone, Copy, PartialEq, Eq)]
pub struct ProbeState {
    /// Requests made so far.
    pub attempts_made: u32,
    /// Requests allowed in all.
    pub budget: u32,
}

impl ProbeState {
    /// No more attempts are ever consumed than the budget allows.
    pub open spec fn wf(self) -> bool {
        self.attempts_made <= self.budget
    }

    /// Whether another request may still be made.
    pub open spec fn can_attempt(self) -> bool {
        self.attempts_made < self.budget
    }

    /// A fresh probe that may make `budget` attempts.
    pub fn new(budget: u32) -> (s: Self)
        ensures
            s.wf(),
            s.attempts_made == 0,
            s.budget == budget,
    {
        ProbeState { attempts_made: 0, budget }
    }

    /// Consume one attempt and judge its outcome: ready on a success
    /// response, timed out when a failure exhausts the budget, and
    /// otherwise one more interval of waiting.
    pub fn step(&mut self, outcome: &ProbeOutcome) -> (v: ProbeVerdict)
        requires
            old(self).wf(),
            old(self).can_attempt(),
        ensures
            final(self).wf(),
            final(self).budget == old(self).budget,
            final(self).attempts_made == old(self).attempts_made + 1,
            match v {
                ProbeVerdict::Ready { attempts } => {
                    &&& *outcome is Success
                    &&& attempts == final(self).attempts_made
                },
                ProbeVerdict::Continue => *outcome is Failure && final(self).can_attempt(),
                ProbeVerdict::TimedOut => *outcome is Failure && !final(self).can_attempt(),
            },
    {
        self.attempts_made = self.attempts_made + 1;
        match outcome {
            ProbeOutcome::Success => ProbeVerdict::Ready { attempts: self.attempts_made },
            ProbeOutcome::Failure => {
                if self.attempts_made == self.budget {
                    ProbeVerdict::TimedOut
                } else {
                    ProbeVerdict::Continue
                }
            },
        }
    }
}

/// Run a whole probe over the per-attempt outcomes `outcomes`, of
/// which one per allowed attempt must be supplied; attempts after the
/// first success are never consumed. Returns how many attempts a
/// successful probe made. The probe succeeds exactly when some attempt
/// within the budget would answer with success, it consumes exactly
/// one attempt per failure before the first success, and a probe that
/// times out has consumed its whole budget and nothing more.
pub fn evaluate_probe(outcomes: &Vec<ProbeOutcome>, budget: u32) -> (r: Result<u32, LauncherError>)
    requires
        outcomes@.len() >= budget,
    ensures
        match r {
            Ok(n) => {
                &&& 1 <= n <= budget
                &&& outcomes@[n - 1] is Success
                &&& forall|j: int| 0 <= j < n - 1 ==> outcomes@[j] is Failure
            },
            Err(e) => {
                &&& e is BackendTimeout
                &&& forall|j: int| 0 <= j < budget ==> outcomes@[j] is Failure
            },
        },
{
    let mut state = ProbeState::new(budget);
    while state.attempts_made < state.budget
        invariant
            state.wf(),
            state.budget == budget,
            outcomes@.len() >= budget,
            forall|j: int| 0 <= j < state.attempts_made ==> outcomes@[j] is Failure,
        decreases state.budget - state.attempts_made,
    {
        let i = state.attempts_made as usize;
        let verdict = state.step(&outcomes[i]);
        match verdict {
            ProbeVerdict::Ready { attempts } => {
                return Ok(attempts);
            },
            ProbeVerdict::TimedOut => {
                return Err(LauncherError::BackendTimeout);
            },
            ProbeVerdict::Continue => {},
        }
    }
    Err(LauncherError::BackendTimeout)
}

} // verus!
