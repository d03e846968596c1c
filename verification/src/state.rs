//! What the protocol asks of a state and of a transition.

use crate::primitives::TransactionReceipt;
use vstd::prelude::*;
use vstd::std_specs::cmp::PartialEqSpec;

verus! {

/// A snapshot of what can be observed of the remote resource: its domain
/// fields, and the block at which they were read where that is known.
///
/// Two snapshots are equal when their domain fields are; the block takes no
/// part in the comparison.
pub trait State: Clone + core::fmt::Debug + PartialEq + Sized {
    /// The domain fields as a mathematical value.
    type Domain;

    /// The domain fields of this snapshot.
    spec fn domain(&self) -> Self::Domain;

    /// The block that this snapshot is stamped with, if any.
    spec fn last_block(&self) -> Option<u64>;

    /// `==` on snapshots compares the domain fields and nothing else.
    proof fn lemma_equality_over_domain(a: &Self, b: &Self)
        ensures
            Self::obeys_eq_spec(),
            a.eq_spec(b) <==> a.domain() == b.domain(),
    ;

    /// A copy of the snapshot.
    fn get_state(&self) -> (s: Self)
        ensures
            s == *self,
    ;

    /// The block that the snapshot is stamped with, if any.
    fn get_last_block(&self) -> (block: Option<u64>)
        ensures
            block == self.last_block(),
    ;
}

/// The record of one submitted mutation.
pub trait StateTransition: Clone + core::fmt::Debug + PartialEq + Sized {
    /// The receipt that the record was made from.
    spec fn receipt(&self) -> TransactionReceipt;

    /// A transition is complete once its receipt is that of a finalized
    /// mutation.
    open spec fn is_complete(&self) -> bool {
        self.receipt().is_final()
    }

    /// The receipt of the mutating call.
    fn get_receipt(&self) -> (r: TransactionReceipt)
        ensures
            r == self.receipt(),
    ;
}

/// Snapshots that differ at most in their block are equal, and `==` says
/// so.
pub proof fn lemma_equality_excludes_bookkeeping<S: State>(a: S, b: S)
    requires
        a.domain() == b.domain(),
    ensures
        S::obeys_eq_spec(),
        a.eq_spec(&b),
{
    S::lemma_equality_over_domain(&a, &b);
}

} // verus!
