use state_validator::{Address, InvalidOutputType, Token, ValueChangedFilter};

fn address(byte: u8) -> Address {
    Address { bytes: [byte; 20] }
}

fn four() -> Vec<Token> {
    vec![
        Token::Address(address(1)),
        Token::Address(address(2)),
        Token::String("old".to_string()),
        Token::String("new".to_string()),
    ]
}

#[test]
fn from_tokens_reads_the_four_fields_in_order() {
    let event = ValueChangedFilter::from_tokens(four()).unwrap();
    assert_eq!(event.author.bytes, [1u8; 20]);
    assert_eq!(event.old_author.bytes, [2u8; 20]);
    assert_eq!(event.old_value, "old");
    assert_eq!(event.new_value, "new");
}

#[test]
fn from_tokens_refuses_another_length() {
    assert_eq!(
        ValueChangedFilter::from_tokens(vec![]).unwrap_err(),
        InvalidOutputType::Length { expected: 4, got: 0 }
    );
    let mut three = four();
    three.pop();
    assert_eq!(
        ValueChangedFilter::from_tokens(three).unwrap_err(),
        InvalidOutputType::Length { expected: 4, got: 3 }
    );
    let mut five = four();
    five.push(Token::Bool(true));
    assert_eq!(
        ValueChangedFilter::from_tokens(five).unwrap_err(),
        InvalidOutputType::Length { expected: 4, got: 5 }
    );
}

#[test]
fn from_tokens_names_the_first_token_of_the_wrong_kind() {
    let mut tokens = four();
    tokens[0] = Token::String("x".to_string());
    tokens[3] = Token::Bool(false);
    assert_eq!(
        ValueChangedFilter::from_tokens(tokens).unwrap_err(),
        InvalidOutputType::Kind { index: 0 }
    );
    let mut tokens = four();
    tokens[1] = Token::Uint([0u8; 32]);
    assert_eq!(
        ValueChangedFilter::from_tokens(tokens).unwrap_err(),
        InvalidOutputType::Kind { index: 1 }
    );
    let mut tokens = four();
    tokens[2] = Token::Bytes(vec![1, 2]);
    assert_eq!(
        ValueChangedFilter::from_tokens(tokens).unwrap_err(),
        InvalidOutputType::Kind { index: 2 }
    );
    let mut tokens = four();
    tokens[3] = Token::Tuple(vec![Token::String("new".to_string())]);
    assert_eq!(
        ValueChangedFilter::from_tokens(tokens).unwrap_err(),
        InvalidOutputType::Kind { index: 3 }
    );
}

#[test]
fn event_signature_is_the_known_hash() {
    assert_eq!(
        ValueChangedFilter::signature().bytes,
        [
            153, 155, 109, 70, 76, 78, 51, 131, 195, 65, 189, 211, 162, 43, 2, 221, 168, 167, 225,
            214, 156, 6, 157, 37, 46, 53, 203, 46, 226, 244, 163, 195,
        ]
    );
    assert_eq!(
        ValueChangedFilter::abi_signature(),
        "ValueChanged(address,address,string,string)"
    );
}

#[test]
fn events_compare_by_all_four_fields() {
    let event = ValueChangedFilter::from_tokens(four()).unwrap();
    assert!(event == event.clone());
    let mut other = event.clone();
    other.author = address(9);
    assert!(event != other);
    let mut other = event.clone();
    other.old_author = address(9);
    assert!(event != other);
    let mut other = event.clone();
    other.old_value = "older".to_string();
    assert!(event != other);
    let mut other = event.clone();
    other.new_value = "newer".to_string();
    assert!(event != other);
}

#[test]
fn default_event_is_empty() {
    let event = ValueChangedFilter::default();
    assert_eq!(event.author.bytes, [0u8; 20]);
    assert_eq!(event.old_author.bytes, [0u8; 20]);
    assert_eq!(event.old_value, "");
    assert_eq!(event.new_value, "");
}
