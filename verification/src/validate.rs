//! The protocol, one step at a time.
//!
//! A run asks for up to four operations, in this order: read the state,
//! apply the transition, read the state again, query the events. After each
//! answer `validate` says what is due next, or how the run ended. At the end
//! stands the comparison of what the validator caches, and of the events
//! that were queried, with what the transition predicted.

use crate::primitives::RemoteError;
use crate::state::{State, StateTransition};
use crate::validator::Validator;
use vstd::prelude::*;
use vstd::std_specs::cmp::PartialEqSpec;

verus! {

/// One operation of the validator that the protocol asks for. Whoever holds
/// the connection carries it out and hands back the answer.
#[derive(Debug, PartialEq)]
pub enum Request<S> {
    /// Read the remote resource and replace the cached state.
    SyncState,
    /// Submit the mutating call, wait until it is final, and predict what it
    /// does to the state that is carried.
    StateTransition(S),
    /// Query the events from the block that is carried onwards.
    SyncEvents(u64),
}

/// What came of one request that succeeded.
#[derive(Debug, PartialEq)]
pub enum Answer<S, E> {
    /// The state that a `SyncState` returned.
    State(S),
    /// The expected state and the expected events that a `StateTransition`
    /// returned.
    Transition(S, Vec<E>),
    /// The events that a `SyncEvents` returned.
    Events(Vec<E>),
}

/// The answer to one request, as the one who carried it out hands it back:
/// what came of it, or the failure of the remote side.
pub type Reply<S, E> = Result<Answer<S, E>, RemoteError>;

/// Where a run stands: which request is open, and what has to be kept for
/// the comparison at the end.
#[derive(Debug, PartialEq)]
pub enum Phase<S, E> {
    /// The first `SyncState` is open.
    Baseline,
    /// The `StateTransition` is open.
    Transition,
    /// The second `SyncState` is open.
    Resync { expected: S, expected_events: Vec<E> },
    /// The `SyncEvents` is open.
    Reconciliation { expected: S, expected_events: Vec<E> },
}

/// What was predicted, beside what was observed in its place.
#[derive(Debug, PartialEq)]
pub struct Mismatch<A> {
    pub expected: A,
    pub actual: A,
}

/// The remote resource did what was asked, and it is not what was predicted.
#[derive(Debug, PartialEq)]
pub enum ValidationMismatch<S, E> {
    State(Mismatch<S>),
    Events(Mismatch<Vec<E>>),
}

/// Why a run failed.
#[derive(Debug, PartialEq)]
pub enum ValidateError<S, E> {
    Remote(RemoteError),
    Mismatch(ValidationMismatch<S, E>),
}

/// What follows one answer: the next request, or the end of the run.
#[derive(Debug, PartialEq)]
pub enum Step<S, E> {
    Next(Phase<S, E>, Request<S>),
    Done(Result<(), ValidateError<S, E>>),
}

/// A `ValidationMismatch` as a mathematical value.
pub enum ValidationMismatchView<S, E> {
    State(Mismatch<S>),
    Events(Mismatch<Seq<E>>),
}

/// A `ValidateError` as a mathematical value.
pub enum ValidateErrorView<S, E> {
    Remote(RemoteError),
    Mismatch(ValidationMismatchView<S, E>),
}

/// A `Step` as a mathematical value.
pub enum StepView<S, E> {
    Next(Phase<S, E>, Request<S>),
    Done(Result<(), ValidateErrorView<S, E>>),
}

impl<S, E> View for ValidationMismatch<S, E> {
    type V = ValidationMismatchView<S, E>;

    open spec fn view(&self) -> ValidationMismatchView<S, E> {
        match *self {
            ValidationMismatch::State(m) => ValidationMismatchView::State(m),
            ValidationMismatch::Events(m) => ValidationMismatchView::Events(
                Mismatch { expected: m.expected@, actual: m.actual@ },
            ),
        }
    }
}

impl<S, E> View for ValidateError<S, E> {
    type V = ValidateErrorView<S, E>;

    open spec fn view(&self) -> ValidateErrorView<S, E> {
        match *self {
            ValidateError::Remote(e) => ValidateErrorView::Remote(e),
            ValidateError::Mismatch(m) => ValidateErrorView::Mismatch(m@),
        }
    }
}

impl<S, E> View for Step<S, E> {
    type V = StepView<S, E>;

    open spec fn view(&self) -> StepView<S, E> {
        match *self {
            Step::Next(phase, request) => StepView::Next(phase, request),
            Step::Done(Ok(())) => StepView::Done(Ok(())),
            Step::Done(Err(e)) => StepView::Done(Err(e@)),
        }
    }
}

/// The outcome of a comparison as a mathematical value.
pub open spec fn comparison<S, E>(r: Result<(), ValidationMismatch<S, E>>) -> Result<
    (),
    ValidationMismatchView<S, E>,
> {
    match r {
        Ok(()) => Ok(()),
        Err(m) => Err(m@),
    }
}

/// Equality of event sequences: the same length, and equal events at each
/// place.
pub open spec fn events_equal<E: PartialEq>(a: Seq<E>, b: Seq<E>) -> bool {
    &&& a.len() == b.len()
    &&& forall|i: int| 0 <= i < a.len() ==> #[trigger] a[i].eq_spec(&b[i])
}

/// The comparison that ends a run: the states by their domain fields first,
/// then the events.
pub open spec fn reconciled<S: State, E: PartialEq>(
    actual: S,
    expected: S,
    events: Seq<E>,
    expected_events: Seq<E>,
) -> Result<(), ValidationMismatchView<S, E>> {
    if actual.domain() != expected.domain() {
        Err(ValidationMismatchView::State(Mismatch { expected, actual }))
    } else if !events_equal(events, expected_events) {
        Err(ValidationMismatchView::Events(Mismatch { expected: expected_events, actual: events }))
    } else {
        Ok(())
    }
}

/// How a run ends, given what the comparison found.
pub open spec fn concluded<S, E>(r: Result<(), ValidationMismatchView<S, E>>) -> Result<
    (),
    ValidateErrorView<S, E>,
> {
    match r {
        Ok(()) => Ok(()),
        Err(m) => Err(ValidateErrorView::Mismatch(m)),
    }
}

/// What follows when `reply` answers the request that is open in `phase`,
/// while the validator caches `cached`.
///
/// A failure ends the run at once. So does an answer to another request
/// than the open one. The events are queried only where the expected state
/// is stamped with a block; without one the comparison is made with no
/// events.
pub open spec fn next<S: State, E: PartialEq>(
    cached: S,
    phase: Phase<S, E>,
    reply: Reply<S, E>,
) -> StepView<S, E> {
    match reply {
        Err(e) => StepView::Done(Err(ValidateErrorView::Remote(e))),
        Ok(answer) => match (phase, answer) {
            (Phase::Baseline, Answer::State(initial)) => StepView::Next(
                Phase::Transition,
                Request::StateTransition(initial),
            ),
            (Phase::Transition, Answer::Transition(expected, expected_events)) => StepView::Next(
                Phase::Resync { expected, expected_events },
                Request::SyncState,
            ),
            (Phase::Resync { expected, expected_events }, Answer::State(_)) => {
                match expected.last_block() {
                    Some(block) => StepView::Next(
                        Phase::Reconciliation { expected, expected_events },
                        Request::SyncEvents(block),
                    ),
                    None => StepView::Done(
                        concluded(
                            reconciled(cached, expected, Seq::<E>::empty(), expected_events@),
                        ),
                    ),
                }
            },
            (Phase::Reconciliation { expected, expected_events }, Answer::Events(events)) => {
                StepView::Done(concluded(reconciled(cached, expected, events@, expected_events@)))
            },
            _ => StepView::Done(Err(ValidateErrorView::Remote(RemoteError::OutOfTurn))),
        },
    }
}

/// Compares what was observed with what was predicted: the states by their
/// domain fields, and then the events one by one, in order.
pub fn reconcile<S: State, E: PartialEq>(
    actual: S,
    expected: S,
    events: Vec<E>,
    expected_events: Vec<E>,
) -> (r: Result<(), ValidationMismatch<S, E>>)
    ensures
        actual.domain() != expected.domain() ==> r == Err::<(), ValidationMismatch<S, E>>(
            ValidationMismatch::State(Mismatch { expected, actual }),
        ),
        E::obeys_eq_spec() ==> comparison(r) == reconciled(
            actual,
            expected,
            events@,
            expected_events@,
        ),
{
    proof {
        S::lemma_equality_over_domain(&actual, &expected);
    }
    if !(actual == expected) {
        return Err(ValidationMismatch::State(Mismatch { expected, actual }));
    }
    if !(events == expected_events) {
        return Err(
            ValidationMismatch::Events(Mismatch { expected: expected_events, actual: events }),
        );
    }
    Ok(())
}

/// Opens a run: the first request, and the phase in which it is open.
pub fn begin<S, E>() -> (start: (Phase<S, E>, Request<S>))
    ensures
        start == (Phase::<S, E>::Baseline, Request::<S>::SyncState),
{
    (Phase::Baseline, Request::SyncState)
}

/// Takes a run one step on: from the phase it is in and the answer to the
/// request that is open, to the next request or to the end.
pub fn validate<S, T, E, V>(validator: &V, phase: Phase<S, E>, reply: Reply<S, E>) -> (step: Step<
    S,
    E,
>) where S: State, T: StateTransition, E: PartialEq, V: Validator<S, T, E>
    ensures
        step@ == next(validator.cached_state(), phase, reply),
{
    proof {
        V::lemma_events_comparable();
    }
    let answer = match reply {
        Ok(answer) => answer,
        Err(e) => {
            return Step::Done(Err(ValidateError::Remote(e)));
        },
    };
    match (phase, answer) {
        (Phase::Baseline, Answer::State(initial)) => Step::Next(
            Phase::Transition,
            Request::StateTransition(initial),
        ),
        (Phase::Transition, Answer::Transition(expected, expected_events)) => Step::Next(
            Phase::Resync { expected, expected_events },
            Request::SyncState,
        ),
        (Phase::Resync { expected, expected_events }, Answer::State(_)) => {
            match expected.get_last_block() {
                Some(block) => Step::Next(
                    Phase::Reconciliation { expected, expected_events },
                    Request::SyncEvents(block),
                ),
                None => finish(
                    reconcile(validator.get_state(), expected, Vec::new(), expected_events),
                ),
            }
        },
        (Phase::Reconciliation { expected, expected_events }, Answer::Events(events)) => finish(
            reconcile(validator.get_state(), expected, events, expected_events),
        ),
        _ => Step::Done(Err(ValidateError::Remote(RemoteError::OutOfTurn))),
    }
}

/// Ends a run with what the comparison found.
fn finish<S, E>(r: Result<(), ValidationMismatch<S, E>>) -> (step: Step<S, E>)
    ensures
        step@ == StepView::Done(concluded(comparison(r))),
{
    match r {
        Ok(()) => Step::Done(Ok(())),
        Err(m) => Step::Done(Err(ValidateError::Mismatch(m))),
    }
}

} // verus!
