//! Hexadecimal text.

use vstd::prelude::*;
use vstd::string::StringSliceAdditionalSpecFns;
use vstd::utf8::encode_utf8;

verus! {

/// Whether the byte is one of `0` to `9`, `a` to `f` or `A` to `F`.
pub open spec fn is_hex_digit(b: u8) -> bool {
    ||| 48 <= b <= 57
    ||| 97 <= b <= 102
    ||| 65 <= b <= 70
}

/// Whether the byte is a blank that hexadecimal text may hold between its
/// digits: a space, a tab, a line feed or a carriage return.
pub open spec fn is_hex_blank(b: u8) -> bool {
    b == 32 || b == 9 || b == 10 || b == 13
}

/// How many of the bytes are hexadecimal digits.
pub open spec fn hex_digit_count(bytes: Seq<u8>) -> nat
    decreases bytes.len(),
{
    if bytes.len() == 0 {
        0
    } else {
        hex_digit_count(bytes.drop_last()) + if is_hex_digit(bytes.last()) {
            1nat
        } else {
            0nat
        }
    }
}

/// Whether the bytes spell whole bytes in hexadecimal: digits and blanks
/// only, and an even number of digits.
pub open spec fn spells_bytes(bytes: Seq<u8>) -> bool {
    &&& forall|i: int|
        0 <= i < bytes.len() ==> is_hex_digit(#[trigger] bytes[i]) || is_hex_blank(bytes[i])
    &&& hex_digit_count(bytes) % 2 == 0
}

/// Whether the text, as the bytes that hold it, spells whole bytes in
/// hexadecimal.
pub open spec fn is_hex_text(text: Seq<char>) -> bool {
    spells_bytes(encode_utf8(text))
}

/// Tells whether the text spells whole bytes in hexadecimal.
pub fn is_hex(text: &str) -> (r: bool)
    ensures
        r == is_hex_text(text@),
{
    let bytes = text.as_bytes();
    let mut even = true;
    let mut i: usize = 0;
    while i < bytes.len()
        invariant
            i <= bytes.len(),
            bytes@ == text.spec_bytes(),
            forall|j: int| 0 <= j < i ==> is_hex_digit(#[trigger] bytes[j]) || is_hex_blank(bytes[j]),
            even == (hex_digit_count(bytes@.take(i as int)) % 2 == 0),
        decreases bytes.len() - i,
    {
        let b: u8 = bytes[i];
        assert(bytes@.take(i + 1).drop_last() =~= bytes@.take(i as int));
        if (48 <= b && b <= 57) || (97 <= b && b <= 102) || (65 <= b && b <= 70) {
            even = !even;
        } else if !(b == 32 || b == 9 || b == 10 || b == 13) {
            return false;
        }
        i = i + 1;
    }
    assert(bytes@.take(bytes.len() as int) =~= bytes@);
    even
}

} // verus!
