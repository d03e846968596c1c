//! What the protocol asks of a validator.

use crate::config::ValidatorConfig;
use crate::primitives::{RemoteError, TransactionReceipt};
use crate::state::{State, StateTransition};
use vstd::prelude::*;
use vstd::std_specs::cmp::PartialEqSpec;

verus! {

/// The part of a validator that needs no connection: the last state and the
/// last transition it has seen, and the prediction of what a mutation does.
///
/// Each operation takes what the remote resource answered, or the failure it
/// reported, and does the rest. Whoever holds the connection reads, submits
/// and waits, and hands the outcome in.
pub trait Validator<S, T, E>: Sized where S: State, T: StateTransition, E: PartialEq {
    /// The domain fields as one read of the remote resource yields them.
    type Fields;

    /// The state that the validator caches.
    spec fn cached_state(&self) -> S;

    /// The transition that the validator caches.
    spec fn cached_transition(&self) -> T;

    /// What `fetch_state` makes of one read: the snapshot of the fields that
    /// were read, stamped with the height that was read after them, or the
    /// failure of the read.
    spec fn fetched(read: Result<(Self::Fields, u64), RemoteError>) -> Result<S, RemoteError>;

    /// Whether `expected` and `events` are what this validator predicts of
    /// its mutation, applied to `initial` and confirmed by `receipt`.
    spec fn predicts(
        &self,
        initial: S,
        receipt: TransactionReceipt,
        expected: S,
        events: Seq<E>,
    ) -> bool;

    /// A read that succeeded makes a snapshot with the block height that was
    /// read; a read that failed makes none.
    proof fn lemma_fetched_is_stamped(read: Result<(Self::Fields, u64), RemoteError>)
        ensures
            match read {
                Ok((_, height)) => {
                    &&& Self::fetched(read) is Ok
                    &&& Self::fetched(read)->Ok_0.last_block() == Some(height)
                },
                Err(e) => Self::fetched(read) == Err::<S, RemoteError>(e),
            },
    ;

    /// Events of the validator's kind compare as their `==` is specified.
    proof fn lemma_events_comparable()
        ensures
            E::obeys_eq_spec(),
    ;

    /// A copy of the cached state.
    fn get_state(&self) -> (s: S)
        ensures
            s == self.cached_state(),
    ;

    /// A copy of the cached transition.
    fn get_state_transition(&self) -> (t: T)
        ensures
            t.receipt() == self.cached_transition().receipt(),
    ;

    /// Makes a snapshot of one read: the fields, stamped with the block
    /// height that was read after them. The failure of a read is handed on.
    /// Nothing cached changes.
    fn fetch_state(&self, read: Result<(Self::Fields, u64), RemoteError>) -> (r: Result<
        S,
        RemoteError,
    >)
        ensures
            r == Self::fetched(read),
    ;

    /// Makes of one read what `fetch_state` makes of it. A snapshot replaces
    /// the cached state, whole, and is returned; after a failed read the
    /// cache is as it was.
    fn sync_state(&mut self, read: Result<(Self::Fields, u64), RemoteError>) -> (r: Result<
        S,
        RemoteError,
    >)
        ensures
            r == Self::fetched(read),
            match r {
                Ok(state) => final(self).cached_state() == state,
                Err(_) => final(self).cached_state() == old(self).cached_state(),
            },
            final(self).cached_transition() == old(self).cached_transition(),
    ;

    /// Hands on the events that a query gave, or its failure. Nothing is
    /// cached.
    fn sync_events(&mut self, queried: Result<Vec<E>, RemoteError>) -> (r: Result<
        Vec<E>,
        RemoteError,
    >)
        ensures
            r == queried,
            final(self).cached_state() == old(self).cached_state(),
            final(self).cached_transition() == old(self).cached_transition(),
    ;

    /// Takes the outcome of one mutating call that was submitted and waited
    /// for. On a receipt, caches a transition made from it and returns the
    /// state and the events that the mutation is predicted to produce from
    /// `initial_state`; the remote resource is not read for this. On a
    /// failure, hands it on and leaves the cache as it was.
    fn state_transition(
        &mut self,
        initial_state: S,
        finality: Result<TransactionReceipt, RemoteError>,
    ) -> (r: Result<(S, Vec<E>), RemoteError>)
        ensures
            final(self).cached_state() == old(self).cached_state(),
            match finality {
                Ok(receipt) => {
                    &&& r is Ok
                    &&& old(self).predicts(initial_state, receipt, r->Ok_0.0, r->Ok_0.1@)
                    &&& final(self).cached_transition().receipt() == receipt
                },
                Err(e) => {
                    &&& r == Err::<(S, Vec<E>), RemoteError>(e)
                    &&& final(self).cached_transition() == old(self).cached_transition()
                },
            },
    ;
}

/// How a validator comes to be.
pub trait ValidatorBase: Sized {
    /// A validator for the contract and signer that `config` names, which has
    /// seen nothing yet.
    fn init_with(config: ValidatorConfig) -> Self;
}

} // verus!
