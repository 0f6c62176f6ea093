//! The bridge from the driver's completion object to a polled task.
//!
//! The driver's completion object is set exactly once, from one of the
//! driver's own threads, and calls a callback registered on it at that moment.
//! At most one callback can be registered per object; if the object is
//! already set when the callback is registered, the driver calls it at once,
//! from inside the registering call.
//!
//! [`CompletionState`] is the state that the task's poll and the driver's
//! callback share. Its transitions happen in two places only: the first
//! poll moves it from `Created` to `AwaitingCallback` (and the caller then
//! registers the callback, without holding any lock on the state), and the
//! callback moves it to `Completed`. While awaiting the callback the state
//! keeps itself alive, so that the driver never calls back into freed memory;
//! it lets go of itself when completed.
use vstd::prelude::*;

use crate::details::{DriverErrorDetails, ErrorResultRecord};
use crate::driver::CassFuture;
use crate::error::DriverError;
use crate::kind::{code_of, kind_message, DriverErrorKind, CASS_OK};
use crate::session::Session;
use crate::settings::duration_to_driver;

verus! {

/// The state shared by a task polling a completion object and the driver's
/// callback on it.
#[derive(Debug)]
pub enum CompletionState<W> {
    /// No callback registered yet, no waker known.
    Created,
    /// The callback is registered and the task is suspended; `waker` resumes
    /// it. The state keeps itself alive until the callback fires.
    AwaitingCallback { waker: W },
    /// The driver called the callback: the outcome can be read from the
    /// completion object.
    Completed,
}

/// What the caller of a poll has to do next.
#[derive(Debug, Copy, Clone, PartialEq, Eq, Structural)]
pub enum PollStep {
    /// Register the callback on the completion object, with no lock held,
    /// then ask [`CompletionState::after_registration`].
    RegisterCallback,
    /// The task stays suspended.
    Pending,
    /// The completion object is set: read its outcome.
    Ready,
}

/// A callback that fired when it could not have: the driver broke its
/// contract, which the caller must treat as fatal.
#[derive(Debug, Copy, Clone, PartialEq, Eq, Structural)]
pub enum CallbackViolation {
    /// The callback fired before it was registered.
    NotRegistered,
    /// The callback fired a second time.
    AlreadyCompleted,
}

/// The phase of a state, without its waker.
#[derive(Debug, Copy, Clone, PartialEq, Eq, Structural)]
pub enum Phase {
    /// No callback registered yet.
    Created,
    /// The callback is registered and has not fired.
    AwaitingCallback,
    /// The callback fired.
    Completed,
}

/// The phase of a state.
pub open spec fn phase_of<W>(s: CompletionState<W>) -> Phase {
    match s {
        CompletionState::Created => Phase::Created,
        CompletionState::AwaitingCallback { .. } => Phase::AwaitingCallback,
        CompletionState::Completed => Phase::Completed,
    }
}

/// The step a poll reports in each phase.
pub open spec fn step_of_poll(p: Phase) -> PollStep {
    match p {
        Phase::Created => PollStep::RegisterCallback,
        Phase::AwaitingCallback => PollStep::Pending,
        Phase::Completed => PollStep::Ready,
    }
}

/// The phase after a poll.
pub open spec fn phase_after_poll(p: Phase) -> Phase {
    match p {
        Phase::Created => Phase::AwaitingCallback,
        _ => p,
    }
}

/// What the callback reports in each phase it may find.
pub open spec fn callback_outcome(p: Phase) -> Result<(), CallbackViolation> {
    match p {
        Phase::Created => Err(CallbackViolation::NotRegistered),
        Phase::AwaitingCallback => Ok(()),
        Phase::Completed => Err(CallbackViolation::AlreadyCompleted),
    }
}

/// The step that ends a first poll, once the callback is registered.
pub open spec fn step_after_registration(p: Phase) -> PollStep {
    if p == Phase::Completed {
        PollStep::Ready
    } else {
        PollStep::Pending
    }
}

/// Whether a state keeps itself alive for the callback.
pub open spec fn retains_self<W>(s: CompletionState<W>) -> bool {
    s is AwaitingCallback
}

impl<W: Clone> CompletionState<W> {
    /// A state with no callback registered.
    pub fn new() -> (r: CompletionState<W>)
        ensures
            r is Created,
    {
        CompletionState::Created
    }

    /// The poll's share of the state machine.
    ///
    /// In `Created` it stores a clone of `waker` and asks the caller to
    /// register the callback. In `AwaitingCallback` it replaces the stored
    /// waker with a clone of `waker` unless the two wake the same task, which
    /// the caller tells by `wakes_same_task`. In `Completed` it leaves the
    /// state as it is and reports that the outcome can be read.
    pub fn poll(&mut self, waker: &W, wakes_same_task: bool) -> (step: PollStep)
        ensures
            step == step_of_poll(phase_of(*old(self))),
            phase_of(*final(self)) == phase_after_poll(phase_of(*old(self))),
            *old(self) is Created ==> (*final(self) matches CompletionState::AwaitingCallback { waker: w }
                && cloned(*waker, w)),
            *old(self) is AwaitingCallback && wakes_same_task ==> *final(self) == *old(self),
            *old(self) is AwaitingCallback && !wakes_same_task ==> (*final(self) matches CompletionState::AwaitingCallback {
                waker: w,
            } && cloned(*waker, w)),
            *old(self) is Completed ==> *final(self) == *old(self),
    {
        match self {
            CompletionState::Created => {
                *self = CompletionState::AwaitingCallback { waker: waker.clone() };
                PollStep::RegisterCallback
            },
            CompletionState::AwaitingCallback { waker: stored } => {
                if !wakes_same_task {
                    *stored = waker.clone();
                }
                PollStep::Pending
            },
            CompletionState::Completed => PollStep::Ready,
        }
    }

    /// The end of a first poll, once the callback is registered: `Ready` if
    /// the callback already fired from inside the registration, else
    /// `Pending`.
    pub fn after_registration(&self) -> (step: PollStep)
        ensures
            step == step_after_registration(phase_of(*self)),
    {
        match self {
            CompletionState::Completed => PollStep::Ready,
            _ => PollStep::Pending,
        }
    }

    /// The callback's share of the state machine: moves to `Completed`
    /// whatever the state was, and hands back the waker to wake.
    ///
    /// Fails when the callback was not registered or already fired: both
    /// break the driver's contract.
    pub fn complete(&mut self) -> (r: Result<W, CallbackViolation>)
        ensures
            *final(self) is Completed,
            r is Ok <==> callback_outcome(phase_of(*old(self))) is Ok,
            r matches Err(v) ==> callback_outcome(phase_of(*old(self))) == Err::<(), CallbackViolation>(v),
            *old(self) matches CompletionState::AwaitingCallback { waker } ==> r == Ok::<W, CallbackViolation>(waker),
    {
        let mut previous = CompletionState::Completed;
        std::mem::swap(self, &mut previous);
        match previous {
            CompletionState::AwaitingCallback { waker } => Ok(waker),
            CompletionState::Created => Err(CallbackViolation::NotRegistered),
            CompletionState::Completed => Err(CallbackViolation::AlreadyCompleted),
        }
    }

    /// Whether the state keeps itself alive for the callback.
    pub fn retains_self(&self) -> (r: bool)
        ensures
            r == retains_self(*self),
    {
        match self {
            CompletionState::AwaitingCallback { .. } => true,
            _ => false,
        }
    }

    /// Whether the callback fired.
    pub fn is_completed(&self) -> (r: bool)
        ensures
            r == (*self is Completed),
    {
        match self {
            CompletionState::Completed => true,
            _ => false,
        }
    }

    /// The waker stored while awaiting the callback.
    pub fn waker(&self) -> (r: Option<&W>)
        ensures
            r is None <==> !(*self is AwaitingCallback),
            *self matches CompletionState::AwaitingCallback { waker } ==> (r matches Some(w) && *w == waker),
    {
        match self {
            CompletionState::AwaitingCallback { waker } => Some(waker),
            _ => None,
        }
    }
}

/// An event the shared state sees: a poll of the task, or the driver's
/// callback.
#[derive(Debug, Copy, Clone, PartialEq, Eq, Structural)]
pub enum Event {
    /// The task polls.
    Poll,
    /// The driver calls the callback.
    Callback,
}

/// The phase after a run of events from phase `p`, and how many callbacks of
/// the run were accepted.
pub open spec fn run(p: Phase, events: Seq<Event>) -> (Phase, nat)
    decreases events.len(),
{
    if events.len() == 0 {
        (p, 0)
    } else {
        let (q, n) = run(p, events.drop_last());
        match events.last() {
            Event::Poll => (phase_after_poll(q), n),
            Event::Callback => (
                Phase::Completed,
                if callback_outcome(q) is Ok { n + 1 } else { n },
            ),
        }
    }
}

/// If the completion object is already set before the first poll, the
/// callback fires from inside the registration that this poll asks for, is
/// accepted, and the same poll ends `Ready`.
pub proof fn lemma_ready_on_first_poll<W>(s: CompletionState<W>)
    requires
        s is Created,
    ensures
        step_of_poll(phase_of(s)) == PollStep::RegisterCallback,
        callback_outcome(phase_after_poll(phase_of(s))) is Ok,
        step_after_registration(Phase::Completed) == PollStep::Ready,
{
}

/// Whatever the interleaving of polls and callbacks, at most one callback is
/// accepted; once one is, the state stays `Completed` and every later
/// callback is refused as a violation.
pub proof fn lemma_single_completion(events: Seq<Event>)
    ensures
        run(Phase::Created, events).1 <= 1,
        run(Phase::Created, events).1 == 1 ==> run(Phase::Created, events).0 == Phase::Completed,
        run(Phase::Created, events).1 == 1 ==> callback_outcome(run(Phase::Created, events).0)
            == Err::<(), CallbackViolation>(CallbackViolation::AlreadyCompleted),
    decreases events.len(),
{
    if events.len() > 0 {
        lemma_single_completion(events.drop_last());
    }
}

/// A callback before any poll is refused: nothing registered it.
pub proof fn lemma_callback_before_poll_refused()
    ensures
        callback_outcome(Phase::Created) == Err::<(), CallbackViolation>(CallbackViolation::NotRegistered),
        run(Phase::Created, seq![Event::Callback]).1 == 0,
{
    let events = seq![Event::Callback];
    assert(events.drop_last() =~= Seq::<Event>::empty());
    assert(run(Phase::Created, events.drop_last()) == (Phase::Created, 0nat));
    assert(events.last() == Event::Callback);
}

/// The state keeps itself alive exactly while it awaits the callback: from
/// the first poll until the callback, and never again once the callback has
/// fired, whatever the interleaving.
pub proof fn lemma_self_reference_window(events: Seq<Event>)
    ensures
        (run(Phase::Created, events).0 == Phase::AwaitingCallback) <==> (events.contains(Event::Poll)
            && !events.contains(Event::Callback)),
        events.contains(Event::Callback) ==> run(Phase::Created, events).0 == Phase::Completed,
    decreases events.len(),
{
    if events.len() > 0 {
        let init = events.drop_last();
        lemma_self_reference_window(init);
        assert(events =~= init.push(events.last()));
        assert forall|e: Event| events.contains(e) <==> (init.contains(e) || events.last() == e) by {
            if events.contains(e) {
                let i = choose|i: int| 0 <= i < events.len() && events[i] == e;
                if i < events.len() - 1 {
                    assert(init[i] == e);
                }
            }
            if init.contains(e) {
                let i = choose|i: int| 0 <= i < init.len() && init[i] == e;
                assert(events[i] == e);
            }
            if events.last() == e {
                assert(events[events.len() - 1] == e);
            }
        }
    } else {
        assert(!events.contains(Event::Poll));
        assert(!events.contains(Event::Callback));
    }
}

/// What the driver's accessors report on a completion object once it is
/// set.
#[derive(Debug, Clone)]
pub struct NativeCompletion {
    /// The error code; the success code if the operation succeeded.
    pub code: u32,
    /// The error message, `None` if the driver gave none.
    pub message: Option<String>,
    /// The server's error result object, `None` if there is none.
    pub details: Option<ErrorResultRecord>,
}

/// The message of an error: the driver's own if it gave a non-empty one,
/// else the message of the error's kind.
pub open spec fn error_message_of(kind: DriverErrorKind, message: Option<String>) -> Seq<char> {
    match message {
        Some(m) => if m@.len() > 0 { m@ } else { kind_message(kind) },
        None => kind_message(kind),
    }
}

/// The outcome of a set completion object: `Ok` on the success code, else
/// the error of the code's kind, with the driver's message (or the kind's own
/// if the driver gave none) and the server's details if there are any.
pub fn completion_result(completion: NativeCompletion) -> (r: Result<(), DriverError>)
    ensures
        r is Ok <==> completion.code == CASS_OK,
        r matches Err(e) ==> {
            &&& code_of(e.kind) == completion.code
            &&& e.message@ == error_message_of(e.kind, completion.message)
            &&& (e.details is Some <==> (completion.details matches Some(d) && d.code != CASS_OK))
            &&& e.details matches Some(d) ==> Some(d.record) == completion.details
        },
{
    match DriverErrorKind::from_driver(completion.code) {
        None => Ok(()),
        Some(kind) => {
            let message = match completion.message {
                Some(m) => if m.as_str().is_empty() {
                    kind.message()
                } else {
                    m
                },
                None => kind.message(),
            };
            let details = match completion.details {
                Some(record) => DriverErrorDetails::from_driver(record),
                None => None,
            };
            Err(DriverError::new(kind, message, details))
        },
    }
}

/// The timeout in the driver's unit, microseconds as an unsigned count.
///
/// Fails with `LibBadParams` for a negative timeout, which the driver cannot
/// represent.
pub fn timeout_micros(timeout: i64) -> (r: Result<u64, DriverError>)
    ensures
        r is Ok <==> timeout >= 0,
        r matches Ok(t) ==> t == timeout,
        r matches Err(e) ==> e.kind == DriverErrorKind::LibBadParams,
{
    duration_to_driver(timeout)
}

/// A pending operation of the driver: the address of its completion object
/// and the session it was issued on.
///
/// The completion object must not outlive the session, so the future keeps a
/// reference to it; a session that the operation produces is that same
/// session.
pub struct DriverFuture<N> {
    inner: CassFuture,
    session: Session<N>,
}

impl<N> DriverFuture<N> {
    /// The address of the completion object.
    pub closed spec fn raw(&self) -> usize {
        self.inner@
    }

    /// The session the operation was issued on.
    pub closed spec fn session_view(&self) -> N {
        self.session@
    }

    /// Wraps the completion object at address `inner`, issued on `session`.
    ///
    /// The address must not be null: a null completion object is a bug of
    /// the caller, not an outcome of the operation.
    pub fn new(inner: usize, session: Session<N>) -> (r: DriverFuture<N>)
        requires
            inner != 0,
        ensures
            r.raw() == inner,
            r.session_view() == session@,
    {
        DriverFuture { inner: CassFuture::new(inner), session }
    }

    /// The address of the completion object.
    pub fn as_raw(&self) -> (r: usize)
        ensures
            r == self.raw(),
            r != 0,
    {
        self.inner.as_raw()
    }

    /// The session the operation was issued on.
    pub fn session(&self) -> (r: &Session<N>)
        ensures
            r@ == self.session_view(),
    {
        &self.session
    }

    /// The session that a connecting operation produced: the session it was
    /// issued on, shared.
    pub fn connected_session(&self) -> (r: Session<N>)
        ensures
            r@ == self.session_view(),
    {
        self.session.share()
    }
}

} // verus!
