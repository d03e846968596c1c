use state_validator::{
    Address, SimpleStorageState, SimpleStorageStateTransition, State, StateTransition,
    TransactionReceipt, ValueChangedFilter, H256,
};

fn address(byte: u8) -> Address {
    Address { bytes: [byte; 20] }
}

#[test]
fn equality_excludes_the_block() {
    let a = SimpleStorageState::new("A".to_string(), address(1), Some(100));
    let b = SimpleStorageState::new("A".to_string(), address(1), Some(101));
    let c = SimpleStorageState::new("A".to_string(), address(1), None);
    assert!(a == b);
    assert!(a == c);
    assert_eq!(a.get_last_block(), Some(100));
    assert_eq!(c.get_last_block(), None);
}

#[test]
fn equality_sees_each_domain_field() {
    let a = SimpleStorageState::new("A".to_string(), address(1), Some(100));
    let other_value = SimpleStorageState::new("B".to_string(), address(1), Some(100));
    let other_sender = SimpleStorageState::new("A".to_string(), address(2), Some(100));
    assert!(a != other_value);
    assert!(a != other_sender);
}

#[test]
fn addresses_compare_byte_by_byte() {
    let mut bytes = [9u8; 20];
    let a = Address { bytes };
    assert!(a == Address { bytes: [9u8; 20] });
    bytes[19] = 8;
    assert!(a != Address { bytes });
    bytes[19] = 9;
    bytes[0] = 0;
    assert!(a != Address { bytes });
    assert_eq!(Address::zero().bytes, [0u8; 20]);
    assert_eq!(Address::default().bytes, [0u8; 20]);
    assert_eq!(H256::zero().bytes, [0u8; 32]);
}

#[test]
fn default_state_is_empty_and_unstamped() {
    let s = SimpleStorageState::default();
    assert_eq!(s.value, "");
    assert_eq!(s.last_sender.bytes, [0u8; 20]);
    assert_eq!(s.last_block, None);
}

#[test]
fn get_state_copies_every_field() {
    let a = SimpleStorageState::new("A".to_string(), address(3), Some(7));
    let copy = a.get_state();
    assert_eq!(copy.value, "A");
    assert_eq!(copy.last_sender.bytes, [3u8; 20]);
    assert_eq!(copy.last_block, Some(7));
    let cloned = a.clone();
    assert_eq!(cloned.last_block, Some(7));
    assert!(cloned == a);
}

#[test]
fn receipt_is_final_once_it_names_a_block() {
    let submitted = TransactionReceipt { transaction_hash: H256 { bytes: [1u8; 32] }, block_number: None };
    let mined = TransactionReceipt { transaction_hash: H256 { bytes: [1u8; 32] }, block_number: Some(100) };
    assert!(!submitted.finalized());
    assert!(mined.finalized());
    assert!(!TransactionReceipt::default().finalized());
    assert_eq!(TransactionReceipt::default().transaction_hash.bytes, [0u8; 32]);
}

#[test]
fn transition_keeps_receipt_and_events() {
    let receipt = TransactionReceipt { transaction_hash: H256 { bytes: [5u8; 32] }, block_number: Some(3) };
    let event = ValueChangedFilter {
        author: address(1),
        old_author: address(2),
        old_value: "A".to_string(),
        new_value: "B".to_string(),
    };
    let bare = SimpleStorageStateTransition::new(receipt, None);
    assert_eq!(bare.get_receipt(), receipt);
    assert_eq!(bare.last_events, None);
    let full = SimpleStorageStateTransition::new(receipt, Some(vec![event.clone()]));
    assert_eq!(full.get_receipt(), receipt);
    assert_eq!(full.last_events, Some(vec![event]));
    let copy = full.clone();
    assert_eq!(copy, full);
    assert!(bare != full);
}

#[test]
fn default_transition_has_no_block_and_no_events() {
    let t = SimpleStorageStateTransition::default();
    assert_eq!(t.tx_receipt.block_number, None);
    assert_eq!(t.tx_receipt.transaction_hash.bytes, [0u8; 32]);
    assert_eq!(t.last_events, None);
}
