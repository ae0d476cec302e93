//! Laws of the text primitives.

use vstd::prelude::*;

use crate::text;

verus! {

/// The number that a row of decimal digits stands for.
pub open spec fn decimal_reading(digits: Seq<char>) -> int
    decreases digits.len(),
{
    if digits.len() == 0 {
        0
    } else {
        10 * decimal_reading(digits.drop_last()) + (digits.last() as int - 48)
    }
}

/// The decimal notation of a number consists of the digits `0` to `9`, reads as that number,
/// and has no leading zero unless it is a single digit.
pub proof fn law_decimal_reads_back(number: nat)
    ensures
        text::decimal(number).len() > 0,
        forall|i: int|
            0 <= i < text::decimal(number).len() ==> 48 <= #[trigger] text::decimal(number)[i] as int
                <= 57,
        decimal_reading(text::decimal(number)) == number,
        text::decimal(number).len() > 1 ==> text::decimal(number)[0] as int != 48,
    decreases number,
{
    if number < 10 {
        assert(text::decimal(number).drop_last() =~= Seq::empty());
        assert(decimal_reading(text::decimal(number).drop_last()) == 0);
    } else {
        law_decimal_reads_back(number / 10);
        let shorter = text::decimal(number / 10);
        assert(text::decimal(number).drop_last() =~= shorter);
        if shorter.len() == 1 {
            assert(shorter.drop_last() =~= Seq::empty());
            assert(decimal_reading(shorter.drop_last()) == 0);
        }
    }
}

/// The counted size of a text is the number of bytes of its UTF-8 encoding.
pub proof fn law_size_counts_bytes(content: Seq<char>)
    ensures
        text::utf8_len(content) == vstd::utf8::encode_utf8(content).len(),
{
}

} // verus!
