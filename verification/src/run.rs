//! Whole runs of the protocol as mathematical values, and what holds of
//! all of them.

use crate::state::State;
use crate::validate::{
    concluded, next, reconciled, Answer, Phase, Reply, Request, StepView, ValidateErrorView,
};
use vstd::prelude::*;

verus! {

/// The requests of a run, in the order in which they are issued: `request`
/// is open in `phase`, and the remote side gives `replies`, one for each
/// request, for as long as the run asks. `cached` is what the validator
/// caches when the run comes to its comparison.
pub open spec fn requests<S: State, E: PartialEq>(
    cached: S,
    phase: Phase<S, E>,
    request: Request<S>,
    replies: Seq<Reply<S, E>>,
) -> Seq<Request<S>>
    decreases replies.len(),
{
    if replies.len() == 0 {
        seq![request]
    } else {
        match next(cached, phase, replies[0]) {
            StepView::Next(phase, following) => seq![request] + requests(
                cached,
                phase,
                following,
                replies.drop_first(),
            ),
            StepView::Done(_) => seq![request],
        }
    }
}

/// How the run ends that is in `phase` and is given `replies`; nothing yet
/// if the replies run out before the run is over.
pub open spec fn outcome<S: State, E: PartialEq>(
    cached: S,
    phase: Phase<S, E>,
    replies: Seq<Reply<S, E>>,
) -> Option<Result<(), ValidateErrorView<S, E>>>
    decreases replies.len(),
{
    if replies.len() == 0 {
        None
    } else {
        match next(cached, phase, replies[0]) {
            StepView::Next(phase, _) => outcome(cached, phase, replies.drop_first()),
            StepView::Done(r) => Some(r),
        }
    }
}

/// The requests of a whole run, from its beginning.
pub open spec fn run_requests<S: State, E: PartialEq>(
    cached: S,
    replies: Seq<Reply<S, E>>,
) -> Seq<Request<S>> {
    requests(cached, Phase::Baseline, Request::SyncState, replies)
}

/// How a whole run ends.
pub open spec fn run_outcome<S: State, E: PartialEq>(
    cached: S,
    replies: Seq<Reply<S, E>>,
) -> Option<Result<(), ValidateErrorView<S, E>>> {
    outcome(cached, Phase::Baseline, replies)
}

/// A run never asks for more than four operations, and asks for them in one
/// order: the state, the transition, the state again, the events.
pub proof fn lemma_requests_in_order<S: State, E: PartialEq>(cached: S, replies: Seq<Reply<S, E>>)
    ensures
        1 <= run_requests(cached, replies).len() <= 4,
        run_requests(cached, replies).len() <= replies.len() + 1,
        run_requests(cached, replies)[0] is SyncState,
        run_requests(cached, replies).len() > 1 ==> run_requests(cached, replies)[1]
            is StateTransition,
        run_requests(cached, replies).len() > 2 ==> run_requests(cached, replies)[2] is SyncState,
        run_requests(cached, replies).len() > 3 ==> run_requests(cached, replies)[3] is SyncEvents,
{
    reveal_with_fuel(requests, 5);
}

/// Once a reply is a failure, no request follows the one that it answers.
pub proof fn lemma_failure_ends_run<S: State, E: PartialEq>(
    cached: S,
    replies: Seq<Reply<S, E>>,
    k: int,
)
    requires
        0 <= k < replies.len(),
        replies[k] is Err,
    ensures
        run_requests(cached, replies).len() <= k + 1,
        run_requests(cached, replies).len() == k + 1 ==> run_outcome(cached, replies) == Some(
            Err::<(), ValidateErrorView<S, E>>(ValidateErrorView::Remote(replies[k]->Err_0)),
        ),
{
    reveal_with_fuel(requests, 5);
    reveal_with_fuel(outcome, 5);
}

/// Where the expected state is stamped with no block, the events are never
/// asked for.
pub proof fn lemma_no_block_no_event_query<S: State, E: PartialEq>(
    cached: S,
    replies: Seq<Reply<S, E>>,
    i: int,
)
    requires
        replies.len() > 1,
        replies[1] matches Ok(Answer::Transition(expected, _)) && expected.last_block() is None,
        0 <= i < run_requests(cached, replies).len(),
    ensures
        !(run_requests(cached, replies)[i] is SyncEvents),
{
    reveal_with_fuel(requests, 5);
}

/// The events are asked for only from the block that the expected state is
/// stamped with.
pub proof fn lemma_event_query_from_expected_block<S: State, E: PartialEq>(
    cached: S,
    replies: Seq<Reply<S, E>>,
    i: int,
)
    requires
        0 <= i < run_requests(cached, replies).len(),
        run_requests(cached, replies)[i] is SyncEvents,
    ensures
        i == 3,
        replies.len() > 2,
        replies[1] matches Ok(Answer::Transition(expected, _)) && expected.last_block() == Some(
            run_requests(cached, replies)[i]->SyncEvents_0,
        ),
{
    reveal_with_fuel(requests, 5);
}

/// Where the transition fails, the run ends with that failure: the state is
/// not read again and the events are not asked for.
pub proof fn lemma_failed_transition_ends_run<S: State, E: PartialEq>(
    cached: S,
    replies: Seq<Reply<S, E>>,
)
    requires
        replies.len() > 1,
        replies[0] is Ok,
        replies[0]->Ok_0 is State,
        replies[1] is Err,
    ensures
        run_requests(cached, replies) == seq![
            Request::SyncState,
            Request::StateTransition(replies[0]->Ok_0->State_0),
        ],
        run_outcome(cached, replies) == Some(
            Err::<(), ValidateErrorView<S, E>>(ValidateErrorView::Remote(replies[1]->Err_0)),
        ),
{
    reveal_with_fuel(requests, 5);
    reveal_with_fuel(outcome, 5);
    assert(run_requests(cached, replies) =~= seq![
        Request::SyncState,
        Request::StateTransition(replies[0]->Ok_0->State_0),
    ]);
}

/// A run that is answered throughout asks for all four operations and ends
/// with the comparison of the cached state and the events that came last
/// with what the transition predicted.
pub proof fn lemma_answered_run<S: State, E: PartialEq>(
    cached: S,
    initial: S,
    expected: S,
    expected_events: Vec<E>,
    observed: S,
    events: Vec<E>,
)
    requires
        expected.last_block() is Some,
    ensures
        run_requests(
            cached,
            seq![
                Ok(Answer::State(initial)),
                Ok(Answer::Transition(expected, expected_events)),
                Ok(Answer::State(observed)),
                Ok(Answer::Events(events)),
            ],
        ) == seq![
            Request::SyncState,
            Request::StateTransition(initial),
            Request::SyncState,
            Request::SyncEvents(expected.last_block()->Some_0),
        ],
        run_outcome(
            cached,
            seq![
                Ok(Answer::State(initial)),
                Ok(Answer::Transition(expected, expected_events)),
                Ok(Answer::State(observed)),
                Ok(Answer::Events(events)),
            ],
        ) == Some(concluded(reconciled(cached, expected, events@, expected_events@))),
{
    reveal_with_fuel(requests, 5);
    reveal_with_fuel(outcome, 5);
    let replies: Seq<Reply<S, E>> = seq![
        Ok(Answer::State(initial)),
        Ok(Answer::Transition(expected, expected_events)),
        Ok(Answer::State(observed)),
        Ok(Answer::Events(events)),
    ];
    assert(replies.drop_first().drop_first().drop_first().drop_first().len() == 0);
    assert(run_requests(cached, replies) =~= seq![
        Request::SyncState,
        Request::StateTransition(initial),
        Request::SyncState,
        Request::SyncEvents(expected.last_block()->Some_0),
    ]);
}

/// A run that is answered throughout, and in which the expected state is
/// stamped with no block, asks for three operations and ends with the
/// comparison of the cached state with the expected one, and of no events
/// with the expected ones.
pub proof fn lemma_answered_run_without_block<S: State, E: PartialEq>(
    cached: S,
    initial: S,
    expected: S,
    expected_events: Vec<E>,
    observed: S,
)
    requires
        expected.last_block() is None,
    ensures
        run_requests(
            cached,
            seq![
                Ok(Answer::State(initial)),
                Ok(Answer::Transition(expected, expected_events)),
                Ok(Answer::State(observed)),
            ],
        ) == seq![Request::SyncState, Request::StateTransition(initial), Request::SyncState],
        run_outcome(
            cached,
            seq![
                Ok(Answer::State(initial)),
                Ok(Answer::Transition(expected, expected_events)),
                Ok(Answer::State(observed)),
            ],
        ) == Some(concluded(reconciled(cached, expected, Seq::<E>::empty(), expected_events@))),
{
    reveal_with_fuel(requests, 5);
    reveal_with_fuel(outcome, 5);
    let replies: Seq<Reply<S, E>> = seq![
        Ok(Answer::State(initial)),
        Ok(Answer::Transition(expected, expected_events)),
        Ok(Answer::State(observed)),
    ];
    assert(run_requests(cached, replies) =~= seq![
        Request::SyncState,
        Request::StateTransition(initial),
        Request::SyncState,
    ]);
}

} // verus!
