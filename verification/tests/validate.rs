use state_validator::{
    begin, reconcile, validate, Address, Answer, Mismatch, Phase, RemoteError, Request,
    SimpleStorageState, SimpleStorageValidator, Step, TransactionReceipt, ValidateError,
    ValidationMismatch, Validator, ValidatorBase, ValidatorConfig, ValueChangedFilter, Wallet, H256,
};

type S = SimpleStorageState;
type E = ValueChangedFilter;

fn address(byte: u8) -> Address {
    Address { bytes: [byte; 20] }
}

fn signer() -> Address {
    address(0xaa)
}

fn validator() -> SimpleStorageValidator {
    let wallet = Wallet { private_key: String::new(), address: signer() };
    SimpleStorageValidator::init_with(ValidatorConfig::new(&wallet, &address(0xcc), "http://node"))
}

fn state(value: &str, sender: Address, block: Option<u64>) -> S {
    SimpleStorageState::new(value.to_string(), sender, block)
}

fn event(seq: &str) -> E {
    ValueChangedFilter {
        author: signer(),
        old_author: address(1),
        old_value: "A".to_string(),
        new_value: seq.to_string(),
    }
}

fn down() -> RemoteError {
    RemoteError::Connectivity("connection refused".to_string())
}

fn next(step: Step<S, E>) -> (Phase<S, E>, Request<S>) {
    match step {
        Step::Next(phase, request) => (phase, request),
        Step::Done(result) => panic!("the run ended early: {:?}", result),
    }
}

/// Runs the first three phases: the stored value is "A", the mutation is
/// predicted to store "B" and to log `expected_events`, it is confirmed at
/// block 100, and the value read back at block 101 is `read_back`.
fn run_to_resync(
    v: &mut SimpleStorageValidator,
    read_back: &str,
    expected_block: Option<u64>,
    expected_events: Vec<E>,
) -> Step<S, E> {
    let (phase, request) = begin::<S, E>();
    assert_eq!(request, Request::SyncState);

    let initial = v.sync_state(Ok((("A".to_string(), address(1)), 99))).unwrap();
    let (phase, request) = next(validate(v, phase, Ok(Answer::State(initial))));
    assert_eq!(phase, Phase::Transition);
    match request {
        Request::StateTransition(initial) => {
            assert_eq!(initial.value, "A");
            assert_eq!(initial.last_block, Some(99));
        }
        other => panic!("expected the transition, got {:?}", other),
    }

    let expected = state("B", signer(), expected_block);
    let (phase, request) =
        next(validate(v, phase, Ok(Answer::Transition(expected, expected_events))));
    assert_eq!(request, Request::SyncState);

    let observed = v.sync_state(Ok(((read_back.to_string(), signer()), 101))).unwrap();
    validate(v, phase, Ok(Answer::State(observed)))
}

#[test]
fn round_trip_succeeds_though_the_block_advanced() {
    let mut v = validator();
    let step = run_to_resync(&mut v, "B", Some(100), vec![event("B")]);
    let (phase, request) = next(step);
    assert_eq!(request, Request::SyncEvents(100));
    assert_eq!(v.get_state().last_block, Some(101));
    let events = v.sync_events(Ok(vec![event("B")])).unwrap();
    let step = validate(&v, phase, Ok(Answer::Events(events)));
    assert_eq!(step, Step::Done(Ok(())));
}

#[test]
fn round_trip_with_the_validators_own_prediction() {
    let mut v = validator();
    let (phase, _) = begin::<S, E>();
    let initial = v.sync_state(Ok((("A".to_string(), address(1)), 99))).unwrap();
    let (phase, request) = next(validate(&v, phase, Ok(Answer::State(initial))));
    let initial = match request {
        Request::StateTransition(initial) => initial,
        other => panic!("expected the transition, got {:?}", other),
    };
    let receipt =
        TransactionReceipt { transaction_hash: H256 { bytes: [7u8; 32] }, block_number: Some(100) };
    let (expected, expected_events) = v.state_transition(initial, Ok(receipt)).unwrap();
    let (phase, request) =
        next(validate(&v, phase, Ok(Answer::Transition(expected, expected_events))));
    assert_eq!(request, Request::SyncState);
    let observed = v.sync_state(Ok((("hi".to_string(), signer()), 101))).unwrap();
    let (phase, request) = next(validate(&v, phase, Ok(Answer::State(observed))));
    assert_eq!(request, Request::SyncEvents(100));
    let logged = ValueChangedFilter {
        author: signer(),
        old_author: address(1),
        old_value: "A".to_string(),
        new_value: "hi".to_string(),
    };
    let events = v.sync_events(Ok(vec![logged])).unwrap();
    assert_eq!(validate(&v, phase, Ok(Answer::Events(events))), Step::Done(Ok(())));
}

#[test]
fn another_value_read_back_is_a_mismatch_and_no_remote_error() {
    let mut v = validator();
    let step = run_to_resync(&mut v, "C", Some(100), vec![event("B")]);
    let (phase, request) = next(step);
    assert_eq!(request, Request::SyncEvents(100));
    let step = validate(&v, phase, Ok(Answer::Events(vec![event("B")])));
    match step {
        Step::Done(Err(ValidateError::Mismatch(ValidationMismatch::State(Mismatch {
            expected,
            actual,
        })))) => {
            assert_eq!(expected.value, "B");
            assert_eq!(expected.last_block, Some(100));
            assert_eq!(actual.value, "C");
            assert_eq!(actual.last_block, Some(101));
        }
        other => panic!("expected a state mismatch, got {:?}", other),
    }
}

#[test]
fn events_in_reverse_order_are_a_mismatch() {
    let mut v = validator();
    let step = run_to_resync(&mut v, "B", Some(100), vec![event("1"), event("2")]);
    let (phase, _) = next(step);
    let step = validate(&v, phase, Ok(Answer::Events(vec![event("2"), event("1")])));
    assert_eq!(
        step,
        Step::Done(Err(ValidateError::Mismatch(ValidationMismatch::Events(Mismatch {
            expected: vec![event("1"), event("2")],
            actual: vec![event("2"), event("1")],
        }))))
    );
}

#[test]
fn events_in_the_predicted_order_pass() {
    let mut v = validator();
    let step = run_to_resync(&mut v, "B", Some(100), vec![event("1"), event("2")]);
    let (phase, _) = next(step);
    let step = validate(&v, phase, Ok(Answer::Events(vec![event("1"), event("2")])));
    assert_eq!(step, Step::Done(Ok(())));
}

#[test]
fn a_missing_or_an_extra_event_is_a_mismatch() {
    let mut v = validator();
    let step = run_to_resync(&mut v, "B", Some(100), vec![event("1"), event("2")]);
    let (phase, _) = next(step);
    let step = validate(&v, phase, Ok(Answer::Events(vec![event("1")])));
    assert_eq!(
        step,
        Step::Done(Err(ValidateError::Mismatch(ValidationMismatch::Events(Mismatch {
            expected: vec![event("1"), event("2")],
            actual: vec![event("1")],
        }))))
    );
    assert_eq!(
        reconcile(
            state("B", signer(), None),
            state("B", signer(), None),
            vec![event("1"), event("2")],
            vec![event("1")]
        ),
        Err(ValidationMismatch::Events(Mismatch {
            expected: vec![event("1")],
            actual: vec![event("1"), event("2")],
        }))
    );
}

#[test]
fn a_state_mismatch_is_reported_before_an_event_mismatch() {
    let r = reconcile(
        state("C", signer(), Some(101)),
        state("B", signer(), Some(100)),
        vec![event("2")],
        vec![event("1")],
    );
    assert_eq!(
        r,
        Err(ValidationMismatch::State(Mismatch {
            expected: state("B", signer(), Some(100)),
            actual: state("C", signer(), Some(101)),
        }))
    );
    assert_eq!(
        reconcile(state("B", signer(), Some(101)), state("B", signer(), None), vec![], Vec::<E>::new()),
        Ok(())
    );
}

#[test]
fn without_an_expected_block_the_events_are_not_asked_for() {
    let mut v = validator();
    let step = run_to_resync(&mut v, "B", None, vec![]);
    assert_eq!(step, Step::Done(Ok(())));

    let mut v = validator();
    let step = run_to_resync(&mut v, "B", None, vec![event("B")]);
    assert_eq!(
        step,
        Step::Done(Err(ValidateError::Mismatch(ValidationMismatch::Events(Mismatch {
            expected: vec![event("B")],
            actual: vec![],
        }))))
    );

    let mut v = validator();
    let step = run_to_resync(&mut v, "C", None, vec![]);
    match step {
        Step::Done(Err(ValidateError::Mismatch(ValidationMismatch::State(_)))) => {}
        other => panic!("expected a state mismatch, got {:?}", other),
    }
}

#[test]
fn a_failed_baseline_ends_the_run() {
    let mut v = validator();
    let (phase, _) = begin::<S, E>();
    let read = v.sync_state(Err(down()));
    let reply = match read {
        Ok(s) => Ok(Answer::State(s)),
        Err(e) => Err(e),
    };
    assert_eq!(validate(&v, phase, reply), Step::Done(Err(ValidateError::Remote(down()))));
}

#[test]
fn a_failed_finality_wait_ends_the_run_with_a_remote_error() {
    let mut v = validator();
    let (phase, _) = begin::<S, E>();
    let initial = v.sync_state(Ok((("A".to_string(), address(1)), 99))).unwrap();
    let (phase, request) = next(validate(&v, phase, Ok(Answer::State(initial))));
    let initial = match request {
        Request::StateTransition(initial) => initial,
        other => panic!("expected the transition, got {:?}", other),
    };
    let failure = RemoteError::Finality("the transaction was dropped".to_string());
    let reply = match v.state_transition(initial, Err(failure.clone())) {
        Ok((expected, events)) => Ok(Answer::Transition(expected, events)),
        Err(e) => Err(e),
    };
    assert_eq!(validate(&v, phase, reply), Step::Done(Err(ValidateError::Remote(failure))));
    assert_eq!(v.get_state().last_block, Some(99));
    assert_eq!(v.get_state_transition().tx_receipt, TransactionReceipt::default());
}

#[test]
fn a_failed_resync_ends_the_run() {
    let v = validator();
    let phase = Phase::Resync { expected: state("B", signer(), Some(100)), expected_events: vec![event("B")] };
    let failure = RemoteError::Decode("unreadable answer".to_string());
    assert_eq!(
        validate(&v, phase, Err(failure.clone())),
        Step::Done(Err(ValidateError::Remote(failure)))
    );
}

#[test]
fn a_failed_event_query_ends_the_run() {
    let v = validator();
    let phase: Phase<S, E> =
        Phase::Reconciliation { expected: state("", address(0), Some(100)), expected_events: vec![] };
    let failure = RemoteError::Rejected("query refused".to_string());
    assert_eq!(
        validate(&v, phase, Err(failure.clone())),
        Step::Done(Err(ValidateError::Remote(failure)))
    );
}

#[test]
fn an_answer_out_of_turn_ends_the_run() {
    let v = validator();
    let out_of_turn: Step<S, E> = Step::Done(Err(ValidateError::Remote(RemoteError::OutOfTurn)));
    assert_eq!(validate(&v, Phase::Baseline, Ok(Answer::Events(vec![]))), out_of_turn);
    assert_eq!(
        validate(&v, Phase::Baseline, Ok(Answer::Transition(state("B", signer(), None), vec![]))),
        out_of_turn
    );
    assert_eq!(
        validate(&v, Phase::Transition, Ok(Answer::State(state("A", signer(), None)))),
        out_of_turn
    );
    let resync = Phase::Resync { expected: state("B", signer(), Some(1)), expected_events: vec![] };
    assert_eq!(validate(&v, resync, Ok(Answer::Events(vec![]))), out_of_turn);
    let reconciliation =
        Phase::Reconciliation { expected: state("B", signer(), Some(1)), expected_events: vec![] };
    assert_eq!(
        validate(&v, reconciliation, Ok(Answer::State(state("B", signer(), None)))),
        out_of_turn
    );
}

#[test]
fn the_comparison_reads_the_cache_and_not_the_answer() {
    let mut v = validator();
    v.sync_state(Ok((("B".to_string(), signer()), 101))).unwrap();
    let phase = Phase::Resync { expected: state("B", signer(), None), expected_events: Vec::<E>::new() };
    let step = validate(&v, phase, Ok(Answer::State(state("C", signer(), Some(101)))));
    assert_eq!(step, Step::Done(Ok(())));
}
