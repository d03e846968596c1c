//! The state, the transition and the validator of the storage contract.

use crate::config::ValidatorConfig;
use crate::primitives::{Address, RemoteError, TransactionReceipt};
use crate::simple_storage::{ValueChanged, ValueChangedFilter};
use crate::state::{State, StateTransition};
use crate::validator::{Validator, ValidatorBase};
use vstd::prelude::*;
use vstd::std_specs::cmp::PartialEqSpec;

verus! {

/// What can be observed of the storage contract: the stored value and who
/// wrote it last, and the block at which the two were read.
#[derive(Debug)]
pub struct SimpleStorageState {
    pub value: String,
    pub last_sender: Address,
    pub last_block: Option<u64>,
}

impl SimpleStorageState {
    pub fn new(value: String, last_sender: Address, last_block: Option<u64>) -> (s:
        SimpleStorageState)
        ensures
            s.value == value,
            s.last_sender == last_sender,
            s.last_block == last_block,
    {
        SimpleStorageState { value, last_sender, last_block }
    }
}

impl Clone for SimpleStorageState {
    fn clone(&self) -> (s: SimpleStorageState)
        ensures
            s == *self,
    {
        SimpleStorageState {
            value: self.value.clone(),
            last_sender: self.last_sender,
            last_block: self.last_block,
        }
    }
}

impl Default for SimpleStorageState {
    fn default() -> (s: SimpleStorageState)
        ensures
            s.value@ == Seq::<char>::empty(),
            s.last_sender.is_zero(),
            s.last_block is None,
    {
        SimpleStorageState { value: String::new(), last_sender: Address::zero(), last_block: None }
    }
}

impl PartialEq for SimpleStorageState {
    fn eq(&self, other: &SimpleStorageState) -> (r: bool) {
        self.value == other.value && self.last_sender == other.last_sender
    }
}

impl vstd::std_specs::cmp::PartialEqSpecImpl for SimpleStorageState {
    open spec fn obeys_eq_spec() -> bool {
        true
    }

    open spec fn eq_spec(&self, other: &SimpleStorageState) -> bool {
        self.value@ == other.value@ && self.last_sender == other.last_sender
    }
}

impl State for SimpleStorageState {
    type Domain = (Seq<char>, Address);

    open spec fn domain(&self) -> (Seq<char>, Address) {
        (self.value@, self.last_sender)
    }

    open spec fn last_block(&self) -> Option<u64> {
        self.last_block
    }

    proof fn lemma_equality_over_domain(a: &Self, b: &Self) {
    }

    fn get_state(&self) -> (s: SimpleStorageState) {
        self.clone()
    }

    fn get_last_block(&self) -> (block: Option<u64>) {
        self.last_block
    }
}

/// A state equals the state of the same fields at any other block, or at
/// none.
pub proof fn lemma_state_equal_at_any_block(a: SimpleStorageState, block: Option<u64>)
    ensures
        a.eq_spec(
            &SimpleStorageState { value: a.value, last_sender: a.last_sender, last_block: block },
        ),
{
}

/// A copy of a list of events.
fn clone_events(events: &Vec<ValueChangedFilter>) -> (copy: Vec<ValueChangedFilter>)
    ensures
        copy@ == events@,
{
    let mut copy: Vec<ValueChangedFilter> = Vec::new();
    let mut i: usize = 0;
    while i < events.len()
        invariant
            i <= events.len(),
            copy@ == events@.take(i as int),
        decreases events.len() - i,
    {
        copy.push(events[i].clone());
        assert(events@.take(i + 1) =~= events@.take(i as int).push(events@[i as int]));
        i = i + 1;
    }
    assert(events@.take(events.len() as int) =~= events@);
    copy
}

/// The record of one call that set the stored value: its receipt, and the
/// events it logged once they are known.
#[derive(Debug, PartialEq)]
pub struct SimpleStorageStateTransition {
    pub tx_receipt: TransactionReceipt,
    pub last_events: Option<Vec<ValueChangedFilter>>,
}

impl SimpleStorageStateTransition {
    /// The events of the record as a mathematical value.
    pub open spec fn events(&self) -> Option<Seq<ValueChangedFilter>> {
        match self.last_events {
            Some(events) => Some(events@),
            None => None,
        }
    }

    pub fn new(tx_receipt: TransactionReceipt, last_events: Option<Vec<ValueChangedFilter>>) -> (t:
        SimpleStorageStateTransition)
        ensures
            t.tx_receipt == tx_receipt,
            t.last_events == last_events,
    {
        SimpleStorageStateTransition { tx_receipt, last_events }
    }
}

impl Clone for SimpleStorageStateTransition {
    fn clone(&self) -> (t: SimpleStorageStateTransition)
        ensures
            t.tx_receipt == self.tx_receipt,
            t.events() == self.events(),
    {
        let last_events = match &self.last_events {
            Some(events) => Some(clone_events(events)),
            None => None,
        };
        SimpleStorageStateTransition { tx_receipt: self.tx_receipt, last_events }
    }
}

impl Default for SimpleStorageStateTransition {
    fn default() -> (t: SimpleStorageStateTransition)
        ensures
            t.tx_receipt.block_number is None,
            t.tx_receipt.transaction_hash.is_zero(),
            t.last_events is None,
    {
        SimpleStorageStateTransition { tx_receipt: TransactionReceipt::default(), last_events: None }
    }
}

impl StateTransition for SimpleStorageStateTransition {
    open spec fn receipt(&self) -> TransactionReceipt {
        self.tx_receipt
    }

    fn get_receipt(&self) -> (r: TransactionReceipt) {
        self.tx_receipt
    }
}

/// The validator of the storage contract. It holds who signs the mutating
/// call, and the last state and transition that were handed to it; nothing
/// but its own operations writes them.
#[derive(Debug)]
pub struct SimpleStorageValidator {
    sender: Address,
    state: SimpleStorageState,
    state_transition: SimpleStorageStateTransition,
}

impl SimpleStorageValidator {
    /// The address that signs the validator's mutating call.
    pub closed spec fn sender(&self) -> Address {
        self.sender
    }

    /// The value that the validator's mutating call stores.
    pub open spec fn new_value() -> Seq<char> {
        "hi"@
    }

    /// The value to submit with the mutating call.
    pub fn mutation_value() -> (value: String)
        ensures
            value@ == Self::new_value(),
    {
        "hi".to_owned()
    }

    /// The event that storing `new_value()` logs when `sender` signs the
    /// call and `initial` is the state before it.
    pub open spec fn predicted_event(sender: Address, initial: SimpleStorageState) -> ValueChanged {
        ValueChanged {
            author: sender,
            old_author: initial.last_sender,
            old_value: initial.value@,
            new_value: Self::new_value(),
        }
    }
}

impl ValidatorBase for SimpleStorageValidator {
    fn init_with(config: ValidatorConfig) -> (v: SimpleStorageValidator)
        ensures
            v.sender() == config.wallet.address,
            v.cached_state().value@ == Seq::<char>::empty(),
            v.cached_state().last_sender.is_zero(),
            v.cached_state().last_block is None,
            v.cached_transition().tx_receipt.block_number is None,
            v.cached_transition().tx_receipt.transaction_hash.is_zero(),
            v.cached_transition().last_events is None,
    {
        SimpleStorageValidator {
            sender: config.wallet.address,
            state: SimpleStorageState::default(),
            state_transition: SimpleStorageStateTransition::default(),
        }
    }
}

impl Validator<
    SimpleStorageState,
    SimpleStorageStateTransition,
    ValueChangedFilter,
> for SimpleStorageValidator {
    type Fields = (String, Address);

    closed spec fn cached_state(&self) -> SimpleStorageState {
        self.state
    }

    closed spec fn cached_transition(&self) -> SimpleStorageStateTransition {
        self.state_transition
    }

    open spec fn fetched(read: Result<((String, Address), u64), RemoteError>) -> Result<
        SimpleStorageState,
        RemoteError,
    > {
        match read {
            Ok((fields, height)) => Ok(
                SimpleStorageState {
                    value: fields.0,
                    last_sender: fields.1,
                    last_block: Some(height),
                },
            ),
            Err(e) => Err(e),
        }
    }

    open spec fn predicts(
        &self,
        initial: SimpleStorageState,
        receipt: TransactionReceipt,
        expected: SimpleStorageState,
        events: Seq<ValueChangedFilter>,
    ) -> bool {
        &&& expected.value@ == Self::new_value()
        &&& expected.last_sender == self.sender()
        &&& expected.last_block == receipt.block_number
        &&& events.len() == 1
        &&& events[0]@ == Self::predicted_event(self.sender(), initial)
    }

    proof fn lemma_fetched_is_stamped(read: Result<((String, Address), u64), RemoteError>) {
    }

    proof fn lemma_events_comparable() {
    }

    fn get_state(&self) -> (s: SimpleStorageState) {
        self.state.clone()
    }

    fn get_state_transition(&self) -> (t: SimpleStorageStateTransition)
        ensures
            t.tx_receipt == self.cached_transition().tx_receipt,
            t.events() == self.cached_transition().events(),
    {
        self.state_transition.clone()
    }

    fn fetch_state(&self, read: Result<((String, Address), u64), RemoteError>) -> (r: Result<
        SimpleStorageState,
        RemoteError,
    >) {
        match read {
            Ok((fields, height)) => {
                let (value, last_sender) = fields;
                Ok(SimpleStorageState::new(value, last_sender, Some(height)))
            },
            Err(e) => Err(e),
        }
    }

    fn sync_state(&mut self, read: Result<((String, Address), u64), RemoteError>) -> (r: Result<
        SimpleStorageState,
        RemoteError,
    >)
        ensures
            final(self).sender() == old(self).sender(),
    {
        match self.fetch_state(read) {
            Ok(state) => {
                self.state = state.clone();
                Ok(state)
            },
            Err(e) => Err(e),
        }
    }

    fn sync_events(&mut self, queried: Result<Vec<ValueChangedFilter>, RemoteError>) -> (r: Result<
        Vec<ValueChangedFilter>,
        RemoteError,
    >)
        ensures
            *final(self) == *old(self),
    {
        queried
    }

    fn state_transition(
        &mut self,
        initial_state: SimpleStorageState,
        finality: Result<TransactionReceipt, RemoteError>,
    ) -> (r: Result<(SimpleStorageState, Vec<ValueChangedFilter>), RemoteError>)
        ensures
            final(self).sender() == old(self).sender(),
            finality matches Ok(receipt) ==> final(self).cached_transition().tx_receipt == receipt
                && final(self).cached_transition().last_events is None,
    {
        match finality {
            Ok(tx_receipt) => {
                self.state_transition = SimpleStorageStateTransition::new(tx_receipt, None);
                let expected_state = SimpleStorageState::new(
                    Self::mutation_value(),
                    self.sender,
                    tx_receipt.block_number,
                );
                let event = ValueChangedFilter {
                    author: self.sender,
                    old_author: initial_state.last_sender,
                    old_value: initial_state.value,
                    new_value: Self::mutation_value(),
                };
                let mut expected_events: Vec<ValueChangedFilter> = Vec::new();
                expected_events.push(event);
                Ok((expected_state, expected_events))
            },
            Err(e) => Err(e),
        }
    }
}

} // verus!
