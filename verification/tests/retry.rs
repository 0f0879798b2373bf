use feature_probe::{retry_n_times, RunState};
use std::cell::Cell;

fn state(s: RunState<bool, u8>) -> String {
    format!("{:?}", s)
}

fn begun(retries: usize) -> RunState<bool, u8> {
    RunState::Idle.begin(retries)
}

/// The run after an attempt has ended and a fault, if it was one, has been
/// dealt with.
fn after(s: RunState<bool, u8>, attempt: Result<bool, u8>) -> RunState<bool, u8> {
    s.record(attempt).recover()
}

#[test]
fn run_is_idle_until_begun() {
    assert_eq!(state(RunState::Idle), "Idle");
    assert_eq!(state(RunState::Idle.record(Ok(true))), "Idle");
    assert_eq!(state(RunState::Idle.record(Err(1))), "Idle");
    assert_eq!(state(RunState::Idle.recover()), "Idle");
}

#[test]
fn begun_run_is_attempting_with_all_retries() {
    assert_eq!(state(begun(2)), "Attempting { retries_left: 2 }");
    assert_eq!(state(begun(0)), "Attempting { retries_left: 0 }");
}

#[test]
fn run_is_begun_once() {
    assert_eq!(state(begun(2).begin(5)), "Attempting { retries_left: 2 }");
    assert_eq!(state(begun(2).record(Ok(true)).begin(5)), "Succeeded(true)");
    assert_eq!(state(begun(2).record(Err(1)).begin(5)), "Faulted { fault: 1, retries_left: 2 }");
    assert_eq!(state(after(begun(0), Err(1)).begin(5)), "FaultedTerminal(1)");
}

#[test]
fn answer_ends_the_run() {
    assert_eq!(state(begun(2).record(Ok(true))), "Succeeded(true)");
    assert_eq!(state(begun(2).record(Ok(false))), "Succeeded(false)");
    assert_eq!(state(begun(0).record(Ok(false))), "Succeeded(false)");
    assert_eq!(state(begun(2).record(Ok(false)).recover()), "Succeeded(false)");
}

#[test]
fn fault_is_recorded_with_the_retries_left() {
    assert_eq!(state(begun(2).record(Err(7))), "Faulted { fault: 7, retries_left: 2 }");
    assert_eq!(state(begun(0).record(Err(7))), "Faulted { fault: 7, retries_left: 0 }");
}

#[test]
fn fault_with_retries_left_uses_one_up() {
    assert_eq!(state(begun(2).record(Err(7)).recover()), "Attempting { retries_left: 1 }");
    assert_eq!(state(after(after(begun(2), Err(7)), Err(8))), "Attempting { retries_left: 0 }");
}

#[test]
fn fault_without_retries_left_is_final() {
    assert_eq!(state(begun(0).record(Err(7)).recover()), "FaultedTerminal(7)");
    assert_eq!(state(after(after(after(begun(2), Err(7)), Err(8)), Err(9))), "FaultedTerminal(9)");
}

#[test]
fn answer_after_faults_is_final() {
    assert_eq!(state(after(after(after(begun(2), Err(7)), Err(8)), Ok(true))), "Succeeded(true)");
    assert_eq!(state(after(after(begun(1), Err(7)), Ok(false))), "Succeeded(false)");
}

#[test]
fn attempt_is_not_taken_in_before_the_fault_is_dealt_with() {
    assert_eq!(
        state(begun(2).record(Err(7)).record(Ok(true))),
        "Faulted { fault: 7, retries_left: 2 }"
    );
}

#[test]
fn finished_run_stays_as_it_is() {
    assert_eq!(state(after(after(begun(2), Ok(false)), Ok(true))), "Succeeded(false)");
    assert_eq!(state(after(after(begun(2), Ok(true)), Err(1))), "Succeeded(true)");
    assert_eq!(state(after(after(begun(0), Err(1)), Ok(true))), "FaultedTerminal(1)");
    assert_eq!(state(after(after(begun(0), Err(1)), Err(2))), "FaultedTerminal(1)");
}

#[test]
fn most_retries_do_not_overflow() {
    assert_eq!(
        state(after(begun(usize::MAX), Err(1))),
        format!("Attempting {{ retries_left: {} }}", usize::MAX - 1)
    );
}

#[test]
fn retry_stops_at_the_first_answer() {
    let calls = Cell::new(0u32);
    let result: Result<u32, String> = retry_n_times(5, || {
        calls.set(calls.get() + 1);
        Ok(calls.get())
    });
    assert_eq!(result, Ok(1));
    assert_eq!(calls.get(), 1);
}

#[test]
fn retry_goes_on_after_faults() {
    let calls = Cell::new(0u32);
    let result: Result<&str, u32> = retry_n_times(2, || {
        calls.set(calls.get() + 1);
        if calls.get() <= 2 {
            Err(calls.get())
        } else {
            Ok("done")
        }
    });
    assert_eq!(result, Ok("done"));
    assert_eq!(calls.get(), 3);
}

#[test]
fn retry_gives_up_with_the_last_fault() {
    let calls = Cell::new(0u32);
    let result: Result<bool, u32> = retry_n_times(2, || {
        calls.set(calls.get() + 1);
        Err(calls.get() * 10)
    });
    assert_eq!(result, Err(30));
    assert_eq!(calls.get(), 3);
}

#[test]
fn retry_with_no_retries_calls_once() {
    let calls = Cell::new(0u32);
    let result: Result<bool, u32> = retry_n_times(0, || {
        calls.set(calls.get() + 1);
        Err(calls.get())
    });
    assert_eq!(result, Err(1));
    assert_eq!(calls.get(), 1);
}

#[test]
fn retry_takes_a_closure_that_changes_its_state() {
    let mut faults_left = 4;
    let result: Result<bool, &str> = retry_n_times(4, || {
        if faults_left > 0 {
            faults_left -= 1;
            Err("not yet")
        } else {
            Ok(false)
        }
    });
    assert_eq!(result, Ok(false));
    assert_eq!(faults_left, 0);
}

#[test]
fn retry_falls_one_attempt_short() {
    let mut faults_left = 4;
    let result: Result<bool, &str> = retry_n_times(3, || {
        if faults_left > 0 {
            faults_left -= 1;
            Err("not yet")
        } else {
            Ok(true)
        }
    });
    assert_eq!(result, Err("not yet"));
    assert_eq!(faults_left, 0);
}
