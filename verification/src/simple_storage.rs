//! The event of the storage contract, and its decoding from tokens.

use crate::primitives::{Address, H256};
use vstd::prelude::*;

verus! {

/// One decoded value of the contract interface. Integers are held as their
/// 32 big-endian bytes.
#[derive(Debug, PartialEq)]
pub enum Token {
    Address(Address),
    FixedBytes(Vec<u8>),
    Bytes(Vec<u8>),
    Int([u8; 32]),
    Uint([u8; 32]),
    Bool(bool),
    String(String),
    FixedArray(Vec<Token>),
    Array(Vec<Token>),
    Tuple(Vec<Token>),
}

/// Why a list of tokens is not an event of the expected shape.
#[derive(Clone, Copy, Debug, PartialEq, Eq)]
pub enum InvalidOutputType {
    /// The list holds `got` tokens where the event has `expected` fields.
    Length { expected: usize, got: usize },
    /// The token at `index` is not of the kind that its field takes.
    Kind { index: usize },
}

/// The event that the contract logs whenever its stored value changes.
#[derive(Debug)]
pub struct ValueChangedFilter {
    pub author: Address,
    pub old_author: Address,
    pub old_value: String,
    pub new_value: String,
}

/// A `ValueChangedFilter` as a mathematical value.
pub struct ValueChanged {
    pub author: Address,
    pub old_author: Address,
    pub old_value: Seq<char>,
    pub new_value: Seq<char>,
}

impl View for ValueChangedFilter {
    type V = ValueChanged;

    open spec fn view(&self) -> ValueChanged {
        ValueChanged {
            author: self.author,
            old_author: self.old_author,
            old_value: self.old_value@,
            new_value: self.new_value@,
        }
    }
}

impl PartialEq for ValueChangedFilter {
    fn eq(&self, other: &ValueChangedFilter) -> (r: bool) {
        self.author == other.author && self.old_author == other.old_author && self.old_value
            == other.old_value && self.new_value == other.new_value
    }
}

impl Eq for ValueChangedFilter {

}

impl vstd::std_specs::cmp::PartialEqSpecImpl for ValueChangedFilter {
    open spec fn obeys_eq_spec() -> bool {
        true
    }

    open spec fn eq_spec(&self, other: &ValueChangedFilter) -> bool {
        self@ == other@
    }
}

impl Clone for ValueChangedFilter {
    fn clone(&self) -> (c: ValueChangedFilter)
        ensures
            c == *self,
    {
        ValueChangedFilter {
            author: self.author,
            old_author: self.old_author,
            old_value: self.old_value.clone(),
            new_value: self.new_value.clone(),
        }
    }
}

impl Default for ValueChangedFilter {
    fn default() -> (e: ValueChangedFilter)
        ensures
            e.author.is_zero(),
            e.old_author.is_zero(),
            e.old_value@ == Seq::<char>::empty(),
            e.new_value@ == Seq::<char>::empty(),
    {
        ValueChangedFilter {
            author: Address::zero(),
            old_author: Address::zero(),
            old_value: String::new(),
            new_value: String::new(),
        }
    }
}

/// The address that a token holds, if it is an address token.
pub open spec fn token_address(t: Token) -> Option<Address> {
    match t {
        Token::Address(a) => Some(a),
        _ => None,
    }
}

/// The text that a token holds, if it is a string token.
pub open spec fn token_string(t: Token) -> Option<Seq<char>> {
    match t {
        Token::String(s) => Some(s@),
        _ => None,
    }
}

/// What a list of tokens decodes to. The event has four fields: two
/// addresses, then two strings. A list of another length is refused; in a
/// list of four the first token of the wrong kind is named.
pub open spec fn decoded(tokens: Seq<Token>) -> Result<ValueChanged, InvalidOutputType> {
    if tokens.len() != 4 {
        Err(InvalidOutputType::Length { expected: 4, got: tokens.len() as usize })
    } else if token_address(tokens[0]) is None {
        Err(InvalidOutputType::Kind { index: 0 })
    } else if token_address(tokens[1]) is None {
        Err(InvalidOutputType::Kind { index: 1 })
    } else if token_string(tokens[2]) is None {
        Err(InvalidOutputType::Kind { index: 2 })
    } else if token_string(tokens[3]) is None {
        Err(InvalidOutputType::Kind { index: 3 })
    } else {
        Ok(
            ValueChanged {
                author: token_address(tokens[0])->Some_0,
                old_author: token_address(tokens[1])->Some_0,
                old_value: token_string(tokens[2])->Some_0,
                new_value: token_string(tokens[3])->Some_0,
            },
        )
    }
}

impl ValueChangedFilter {
    /// The hash under which the ledger files this event.
    pub fn signature() -> (h: H256)
        ensures
            h.bytes@ == seq![
                153u8, 155u8, 109u8, 70u8, 76u8, 78u8, 51u8, 131u8, 195u8, 65u8, 189u8, 211u8,
                162u8, 43u8, 2u8, 221u8, 168u8, 167u8, 225u8, 214u8, 156u8, 6u8, 157u8, 37u8,
                46u8, 53u8, 203u8, 46u8, 226u8, 244u8, 163u8, 195u8,
            ],
    {
        let bytes: [u8; 32] = [
            153, 155, 109, 70, 76, 78, 51, 131, 195, 65, 189, 211, 162, 43, 2, 221, 168, 167,
            225, 214, 156, 6, 157, 37, 46, 53, 203, 46, 226, 244, 163, 195,
        ];
        assert(bytes@ =~= seq![
            153u8, 155u8, 109u8, 70u8, 76u8, 78u8, 51u8, 131u8, 195u8, 65u8, 189u8, 211u8,
            162u8, 43u8, 2u8, 221u8, 168u8, 167u8, 225u8, 214u8, 156u8, 6u8, 157u8, 37u8, 46u8,
            53u8, 203u8, 46u8, 226u8, 244u8, 163u8, 195u8,
        ]);
        H256 { bytes }
    }

    /// The event's declaration, as the contract interface spells it.
    pub fn abi_signature() -> (s: &'static str)
        ensures
            s@ == "ValueChanged(address,address,string,string)"@,
    {
        "ValueChanged(address,address,string,string)"
    }

    /// Decodes the event from the tokens of one log entry.
    pub fn from_tokens(tokens: Vec<Token>) -> (r: Result<ValueChangedFilter, InvalidOutputType>)
        ensures
            match r {
                Ok(event) => decoded(tokens@) == Ok::<ValueChanged, InvalidOutputType>(event@),
                Err(e) => decoded(tokens@) == Err::<ValueChanged, InvalidOutputType>(e),
            },
    {
        let got: usize = tokens.len();
        if got != 4 {
            return Err(InvalidOutputType::Length { expected: 4, got });
        }
        let mut tokens = tokens;
        let ghost all = tokens@;
        let new_value_token = tokens.pop().unwrap();
        let old_value_token = tokens.pop().unwrap();
        let old_author_token = tokens.pop().unwrap();
        let author_token = tokens.pop().unwrap();
        assert(author_token == all[0] && old_author_token == all[1] && old_value_token == all[2]
            && new_value_token == all[3]);
        let author = match author_token {
            Token::Address(a) => a,
            _ => {
                return Err(InvalidOutputType::Kind { index: 0 });
            },
        };
        let old_author = match old_author_token {
            Token::Address(a) => a,
            _ => {
                return Err(InvalidOutputType::Kind { index: 1 });
            },
        };
        let old_value = match old_value_token {
            Token::String(s) => s,
            _ => {
                return Err(InvalidOutputType::Kind { index: 2 });
            },
        };
        let new_value = match new_value_token {
            Token::String(s) => s,
            _ => {
                return Err(InvalidOutputType::Kind { index: 3 });
            },
        };
        Ok(ValueChangedFilter { author, old_author, old_value, new_value })
    }
}

} // verus!
