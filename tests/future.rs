use std::cell::Cell;
use std::rc::Rc;

use cassander::details::ErrorResultRecord;
use cassander::future::{completion_result, timeout_micros, CallbackViolation};
use cassander::kind::SERVER_READ_TIMEOUT;
use cassander::{CompletionState, Consistency, DriverErrorKind, DriverFuture, NativeCompletion, PollStep, Session};

/// A waker that counts how often it was cloned.
struct CountingWaker {
    task: u32,
    clones: Rc<Cell<usize>>,
}

impl Clone for CountingWaker {
    fn clone(&self) -> Self {
        self.clones.set(self.clones.get() + 1);
        CountingWaker { task: self.task, clones: self.clones.clone() }
    }
}

fn waker(task: u32) -> CountingWaker {
    CountingWaker { task, clones: Rc::new(Cell::new(0)) }
}

fn success() -> NativeCompletion {
    NativeCompletion { code: 0, message: None, details: None }
}

#[test]
fn first_poll_registers_then_waits() {
    let w = waker(1);
    let mut state = CompletionState::new();
    assert_eq!(state.poll(&w, false), PollStep::RegisterCallback);
    assert!(state.retains_self());
    assert_eq!(state.after_registration(), PollStep::Pending);
    assert_eq!(state.poll(&w, true), PollStep::Pending);
}

#[test]
fn already_complete_object_is_ready_on_first_poll() {
    let w = waker(1);
    let mut state = CompletionState::new();
    assert_eq!(state.poll(&w, false), PollStep::RegisterCallback);
    // The driver calls back from inside the registration.
    let woken = state.complete().ok().unwrap();
    assert_eq!(woken.task, 1);
    assert_eq!(state.after_registration(), PollStep::Ready);
    assert!(!state.retains_self());
}

#[test]
fn callback_wakes_the_stored_waker_once() {
    let mut state = CompletionState::new();
    assert_eq!(state.poll(&waker(3), false), PollStep::RegisterCallback);
    assert_eq!(state.after_registration(), PollStep::Pending);
    assert_eq!(state.complete().ok().map(|w| w.task), Some(3));
    assert!(state.is_completed());
    assert_eq!(state.poll(&waker(3), false), PollStep::Ready);
    assert_eq!(state.complete().err(), Some(CallbackViolation::AlreadyCompleted));
}

#[test]
fn callback_before_registration_is_a_violation() {
    let mut state: CompletionState<CountingWaker> = CompletionState::new();
    assert_eq!(state.complete().err(), Some(CallbackViolation::NotRegistered));
}

#[test]
fn randomized_interleavings_complete_exactly_once() {
    let mut seed: u64 = 0x2545_F491_4F6C_DD1D;
    for _ in 0..200 {
        let mut state = CompletionState::new();
        let mut accepted = 0;
        let mut polled = false;
        for _ in 0..12 {
            seed = seed.wrapping_mul(6364136223846793005).wrapping_add(1442695040888963407);
            if (seed >> 33) % 2 == 0 {
                state.poll(&waker(1), true);
                polled = true;
            } else {
                match state.complete() {
                    Ok(_) => accepted += 1,
                    Err(CallbackViolation::NotRegistered) => assert!(!polled),
                    Err(CallbackViolation::AlreadyCompleted) => assert_eq!(accepted + 1 - 1, accepted),
                }
            }
        }
        assert!(accepted <= 1);
        if accepted == 1 {
            assert!(state.is_completed());
            assert_eq!(state.complete().err(), Some(CallbackViolation::AlreadyCompleted));
        }
    }
}

#[test]
fn same_task_waker_is_not_cloned_again() {
    let w = waker(5);
    let mut state = CompletionState::new();
    state.poll(&w, false);
    assert_eq!(w.clones.get(), 1);
    state.poll(&w, true);
    assert_eq!(w.clones.get(), 1);
    assert_eq!(state.waker().map(|w| w.task), Some(5));
}

#[test]
fn different_task_waker_replaces_the_stored_one() {
    let w = waker(5);
    let other = waker(6);
    let mut state = CompletionState::new();
    state.poll(&w, false);
    state.poll(&other, false);
    assert_eq!(other.clones.get(), 1);
    assert_eq!(state.waker().map(|w| w.task), Some(6));
}

#[test]
fn end_to_end_success() {
    let session = Session::new(41u32);
    let future = DriverFuture::new(0x1000, session.share());
    let w = waker(1);
    let mut state = CompletionState::new();
    assert_eq!(state.poll(&w, false), PollStep::RegisterCallback);
    assert_eq!(state.after_registration(), PollStep::Pending);
    assert!(state.complete().is_ok());
    assert_eq!(state.poll(&w, true), PollStep::Ready);
    assert!(completion_result(success()).is_ok());
    assert_eq!(*future.connected_session().inner(), 41);
    assert_eq!(future.as_raw(), 0x1000);
}

#[test]
fn end_to_end_server_error() {
    let record = ErrorResultRecord {
        code: SERVER_READ_TIMEOUT,
        consistency: 0x0006,
        responses_received: 1,
        responses_required: 2,
        num_failures: -1,
        data_present: false,
        write_type: 0,
        keyspace: None,
        table: None,
        function: None,
        arg_types: Vec::new(),
    };
    let completion = NativeCompletion {
        code: SERVER_READ_TIMEOUT,
        message: Some("Operation timed out".to_string()),
        details: Some(record),
    };
    let err = completion_result(completion).unwrap_err();
    assert_eq!(err.kind, DriverErrorKind::ServerReadTimeout);
    assert!(err.kind.is_server_error());
    assert_eq!(err.message, "Operation timed out");
    let details = err.details.unwrap();
    assert_eq!(details.consistency(), Some(Consistency::LocalQuorum));
    assert_eq!(details.responses_received(), Some(1));
    assert_eq!(details.responses_required(), Some(2));
    assert_eq!(details.is_data_present(), Some(false));
}

#[test]
fn error_without_message_uses_the_kind_message() {
    let completion = NativeCompletion { code: 0x0100_000E, message: Some(String::new()), details: None };
    let err = completion_result(completion).unwrap_err();
    assert_eq!(err.kind, DriverErrorKind::LibRequestTimedOut);
    assert_eq!(err.message, "request timed out");
    assert!(err.details.is_none());
}

#[test]
fn unknown_completion_code_is_kept() {
    let completion = NativeCompletion { code: 0x0700_0001, message: None, details: None };
    let err = completion_result(completion).unwrap_err();
    assert_eq!(err.kind, DriverErrorKind::Other(0x0700_0001));
    assert_eq!(err.message, "unknown CassError 117440513");
}

#[test]
fn negative_timeouts_are_refused() {
    assert_eq!(timeout_micros(1500).ok(), Some(1500));
    assert_eq!(timeout_micros(0).ok(), Some(0));
    assert_eq!(timeout_micros(-1).unwrap_err().kind, DriverErrorKind::LibBadParams);
}

struct NativeSession {
    freed: Rc<Cell<usize>>,
}

impl Drop for NativeSession {
    fn drop(&mut self) {
        self.freed.set(self.freed.get() + 1);
    }
}

#[test]
fn session_outlives_the_caller_handle() {
    let freed = Rc::new(Cell::new(0));
    let session = Session::new(NativeSession { freed: freed.clone() });
    let future = DriverFuture::new(0x2000, session.share());
    drop(session);
    assert_eq!(freed.get(), 0);
    assert_eq!(future.session().inner().freed.get(), 0);
    let connected = future.connected_session();
    drop(future);
    assert_eq!(freed.get(), 0);
    drop(connected);
    assert_eq!(freed.get(), 1);
}
