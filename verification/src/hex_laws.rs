//! Laws of the hexadecimal notation.

use vstd::prelude::*;

use crate::hex;
use crate::trace_laws;

verus! {

/// Whether a character is one of `0` to `9` or `a` to `f`, by its code.
pub open spec fn hex_code(c: char) -> bool {
    48 <= c as int <= 57 || 97 <= c as int <= 102
}

/// What reading digits comes to: a text stands for so many bytes exactly if it has two digits
/// for each, and the first of two digits counts sixteen times.
pub proof fn law_digits_are_read(digits: Seq<char>, count: nat)
    ensures
        hex::denotes(digits, count) <==> digits.len() == 2 * count && (forall|i: int|
            #![trigger digits[i]]
            0 <= i < digits.len() ==> hex_code(digits[i])),
        hex::denotes(digits, count) ==> hex::value(digits).len() == count && (forall|i: int|
            #![trigger hex::value(digits)[i]]
            0 <= i < count ==> hex::value(digits)[i] as int == 16 * trace_laws::digit_code(
                digits[2 * i],
            ) + trace_laws::digit_code(digits[2 * i + 1])),
{
    reveal(hex::value);
    if forall|i: int| #![trigger digits[i]] 0 <= i < digits.len() ==> hex_code(digits[i]) {
        assert forall|i: int| 0 <= i < digits.len() implies hex::is_digit(
            #[trigger] digits[i],
        ) by {
            assert(hex_code(digits[i]));
        }
    }
    if hex::denotes(digits, count) {
        assert forall|i: int| #![trigger digits[i]] 0 <= i < digits.len() implies hex_code(
            digits[i],
        ) by {
            assert(hex::is_digit(digits[i]));
        }
        assert forall|i: int| #![trigger hex::value(digits)[i]] 0 <= i < count implies hex::value(
            digits,
        )[i] as int == 16 * trace_laws::digit_code(digits[2 * i]) + trace_laws::digit_code(
            digits[2 * i + 1],
        ) by {
            assert(hex_code(digits[2 * i]) && hex_code(digits[2 * i + 1]));
        }
    }
}

/// What writing bytes comes to: two lower-case digits for each, which read as that byte.
pub proof fn law_bytes_are_written(bytes: Seq<u8>)
    ensures
        hex::notation(bytes).len() == 2 * bytes.len(),
        forall|i: int|
            #![trigger hex::notation(bytes)[i]]
            0 <= i < 2 * bytes.len() ==> hex_code(hex::notation(bytes)[i]),
        forall|i: int|
            #![trigger bytes[i]]
            0 <= i < bytes.len() ==> 16 * trace_laws::digit_code(hex::notation(bytes)[2 * i])
                + trace_laws::digit_code(hex::notation(bytes)[2 * i + 1]) == bytes[i],
{
    hex::lemma_value_of_notation(bytes);
    law_digits_are_read(hex::notation(bytes), bytes.len());
    assert forall|i: int| #![trigger bytes[i]] 0 <= i < bytes.len() implies 16
        * trace_laws::digit_code(hex::notation(bytes)[2 * i]) + trace_laws::digit_code(
        hex::notation(bytes)[2 * i + 1],
    ) == bytes[i] by {
        assert(hex::value(hex::notation(bytes))[i] == bytes[i]);
    }
}

/// The value of one digit, by its character code.
pub proof fn law_digit_is_read(c: char)
    ensures
        hex::is_digit(c) <==> hex_code(c),
        hex_code(c) ==> hex::digit_value(c) == trace_laws::digit_code(c),
{
}

} // verus!
