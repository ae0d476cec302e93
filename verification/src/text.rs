//! Text primitives shared by the parsers, the signals and the error messages.

use vstd::prelude::*;

verus! {

/// `String::push`: appends one `char` to the end of the text.
pub assume_specification[ String::push ](s: &mut String, c: char)
    ensures
        final(s)@ == old(s)@.push(c),
;

/// `std::str::from_utf8`: the text that a byte string encodes, for every byte string that is
/// valid UTF-8, and for no other.
#[verifier::external_body]
pub(crate) fn decode_text(bytes: &[u8]) -> (decoded: Option<&str>)
    ensures
        decoded is Some <==> vstd::utf8::valid_utf8(bytes@),
        decoded matches Some(content) ==> vstd::utf8::encode_utf8(content@) == bytes@,
{
    match std::str::from_utf8(bytes) {
        Ok(content) => Some(content),
        Err(_) => None,
    }
}

/// Number of bytes of the UTF-8 encoding of a text.
pub open spec fn utf8_len(text: Seq<char>) -> nat {
    vstd::utf8::encode_utf8(text).len()
}

/// Two texts with the same UTF-8 encoding are the same text.
pub proof fn lemma_encoding_is_injective(left: Seq<char>, right: Seq<char>)
    requires
        vstd::utf8::encode_utf8(left) == vstd::utf8::encode_utf8(right),
    ensures
        left == right,
{
    vstd::utf8::encode_utf8_decode_utf8(left);
    vstd::utf8::encode_utf8_decode_utf8(right);
}

/// The characters of a text, in order.
pub fn chars_of(text: &str) -> (chars: Vec<char>)
    ensures
        chars@ == text@,
{
    let mut chars: Vec<char> = Vec::new();
    for c in iter: text.chars()
        invariant
            chars@ == iter.seq().take(iter.index() as int),
            iter.seq() == text@,
    {
        chars.push(c);
    }
    chars
}

/// Number of bytes that a text takes in UTF-8.
pub fn byte_len(text: &str) -> (len: usize)
    ensures
        len == utf8_len(text@),
{
    text.as_bytes().len()
}

/// Whether two byte strings are equal.
pub fn same_bytes(left: &[u8], right: &[u8]) -> (same: bool)
    ensures
        same == (left@ == right@),
{
    if left.len() != right.len() {
        return false;
    }
    let mut index: usize = 0;
    while index < left.len()
        invariant
            index <= left@.len(),
            left@.len() == right@.len(),
            forall|i: int| 0 <= i < index ==> left@[i] == right@[i],
        decreases left@.len() - index,
    {
        if left[index] != right[index] {
            return false;
        }
        index += 1;
    }
    assert(left@ =~= right@);
    true
}

/// Whether two texts are equal.
pub fn same_text(left: &str, right: &str) -> (same: bool)
    ensures
        same == (left@ == right@),
{
    let same = same_bytes(left.as_bytes(), right.as_bytes());
    proof {
        if same {
            lemma_encoding_is_injective(left@, right@);
        }
    }
    same
}

/// The decimal digit that stands for `digit`.
pub open spec fn decimal_digit(digit: nat) -> char
    recommends
        digit < 10,
{
    (48 + digit) as char
}

/// The decimal notation of `number`, without sign or leading zeroes.
pub open spec fn decimal(number: nat) -> Seq<char>
    decreases number,
{
    if number < 10 {
        seq![decimal_digit(number)]
    } else {
        decimal(number / 10).push(decimal_digit(number % 10))
    }
}

/// Appends the decimal notation of `number` to a text.
pub fn push_decimal(text: &mut String, number: u128)
    ensures
        final(text)@ == old(text)@ + decimal(number as nat),
    decreases number,
{
    if number >= 10 {
        push_decimal(text, number / 10);
    }
    let digit: u8 = (number % 10) as u8;
    text.push((48 + digit) as char);
}

/// Ten to the power of `digits`.
pub open spec fn power_of_ten(digits: nat) -> nat
    decreases digits,
{
    if digits == 0 {
        1
    } else {
        10 * power_of_ten((digits - 1) as nat)
    }
}

/// A number below a power of ten has a decimal notation of no more digits than the power.
proof fn lemma_decimal_len(number: nat, digits: nat)
    requires
        digits >= 1,
        number < power_of_ten(digits),
    ensures
        1 <= decimal(number).len() <= digits,
    decreases digits,
{
    if number >= 10 {
        assert(digits >= 2) by {
            if digits == 1 {
                reveal_with_fuel(power_of_ten, 2);
            }
        }
        lemma_decimal_len(number / 10, (digits - 1) as nat);
    }
}

/// The decimal notation of a machine integer has at most 39 digits.
pub proof fn lemma_machine_decimal_len(number: u128)
    ensures
        1 <= decimal(number as nat).len() <= 39,
{
    assert(power_of_ten(39) == 1_000_000_000_000_000_000_000_000_000_000_000_000_000) by {
        reveal_with_fuel(power_of_ten, 40);
    }
    lemma_decimal_len(number as nat, 39);
}

} // verus!
