use backend_supervisor::errors::LauncherError;
use backend_supervisor::probe::evaluate_probe;
use backend_supervisor::probe::ProbeOutcome;
use backend_supervisor::probe::ProbeState;
use backend_supervisor::probe::ProbeVerdict;
use backend_supervisor::probe::READY_ATTEMPT_BUDGET;

fn outcomes_with_success_at(n: usize, total: usize) -> Vec<ProbeOutcome> {
    let mut v = vec![ProbeOutcome::Failure; total];
    v[n] = ProbeOutcome::Success;
    v
}

#[test]
fn ready_on_nth_attempt_consumes_exactly_n() {
    let budget = READY_ATTEMPT_BUDGET;
    // The server starts answering on its fifth request.
    let outcomes = outcomes_with_success_at(4, budget as usize);
    assert_eq!(evaluate_probe(&outcomes, budget), Ok(5));
}

#[test]
fn ready_on_first_attempt() {
    let outcomes = outcomes_with_success_at(0, 30);
    assert_eq!(evaluate_probe(&outcomes, 30), Ok(1));
}

#[test]
fn ready_on_last_allowed_attempt() {
    let budget = READY_ATTEMPT_BUDGET as usize;
    let outcomes = outcomes_with_success_at(budget - 1, budget);
    assert_eq!(evaluate_probe(&outcomes, budget as u32), Ok(budget as u32));
}

#[test]
fn never_ready_times_out_after_whole_budget() {
    let outcomes = vec![ProbeOutcome::Failure; READY_ATTEMPT_BUDGET as usize];
    assert_eq!(
        evaluate_probe(&outcomes, READY_ATTEMPT_BUDGET),
        Err(LauncherError::BackendTimeout)
    );
}

#[test]
fn success_after_budget_is_too_late() {
    // The would-be success lies one attempt beyond the budget.
    let outcomes = outcomes_with_success_at(3, 4);
    assert_eq!(evaluate_probe(&outcomes, 3), Err(LauncherError::BackendTimeout));
}

#[test]
fn step_success_is_ready_at_once() {
    let mut st = ProbeState::new(30);
    let v = st.step(&ProbeOutcome::Success);
    assert_eq!(v, ProbeVerdict::Ready { attempts: 1 });
    assert_eq!(st.attempts_made, 1);
}

#[test]
fn step_failure_waits_while_budget_remains() {
    let mut st = ProbeState::new(2);
    assert_eq!(st.step(&ProbeOutcome::Failure), ProbeVerdict::Continue);
    assert_eq!(st.step(&ProbeOutcome::Failure), ProbeVerdict::TimedOut);
    assert_eq!(st.attempts_made, 2);
}

#[test]
fn step_counts_attempts() {
    let mut st = ProbeState::new(3);
    st.step(&ProbeOutcome::Failure);
    let v = st.step(&ProbeOutcome::Success);
    assert_eq!(v, ProbeVerdict::Ready { attempts: 2 });
}

#[test]
fn timeout_error_kind() {
    assert_eq!(LauncherError::BackendTimeout.kind(), "backend never became ready");
}
