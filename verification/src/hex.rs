//! Lower-case hexadecimal notation, two digits to a byte.

use vstd::prelude::*;

verus! {

/// The hexadecimal digit that stands for `value`.
pub open spec fn digit_char(value: nat) -> char
    recommends
        value < 16,
{
    if value < 10 {
        (48 + value) as char
    } else {
        (87 + value) as char
    }
}

/// Whether a character is a lower-case hexadecimal digit.
pub open spec fn is_digit(c: char) -> bool {
    '0' <= c <= '9' || 'a' <= c <= 'f'
}

/// The value of a lower-case hexadecimal digit.
pub open spec fn digit_value(c: char) -> nat
    recommends
        is_digit(c),
{
    if '0' <= c <= '9' {
        (c as nat - 48) as nat
    } else {
        (c as nat - 87) as nat
    }
}

/// The notation of a byte string: the high digit of each byte, then its low digit.
#[verifier::opaque]
pub open spec fn notation(bytes: Seq<u8>) -> Seq<char> {
    Seq::new(
        2 * bytes.len(),
        |i: int|
            if i % 2 == 0 {
                digit_char(bytes[i / 2] as nat / 16)
            } else {
                digit_char(bytes[i / 2] as nat % 16)
            },
    )
}

/// Whether a text is the notation of some `count` bytes.
pub open spec fn denotes(text: Seq<char>, count: nat) -> bool {
    &&& text.len() == 2 * count
    &&& forall|i: int| 0 <= i < text.len() ==> is_digit(#[trigger] text[i])
}

/// The bytes that a text is the notation of.
#[verifier::opaque]
pub open spec fn value(text: Seq<char>) -> Seq<u8> {
    Seq::new(
        text.len() / 2,
        |i: int| (16 * digit_value(text[2 * i]) + digit_value(text[2 * i + 1])) as u8,
    )
}

/// Reading the notation of a byte string gives the byte string back.
pub proof fn lemma_value_of_notation(bytes: Seq<u8>)
    ensures
        denotes(notation(bytes), bytes.len()),
        notation(bytes).len() == 2 * bytes.len(),
        value(notation(bytes)) == bytes,
{
    reveal(notation);
    reveal(value);
    let text = notation(bytes);
    assert forall|i: int| 0 <= i < text.len() implies is_digit(#[trigger] text[i]) by {
        let byte = bytes[i / 2] as nat;
        assert(byte / 16 < 16 && byte % 16 < 16);
    }
    assert forall|i: int| 0 <= i < bytes.len() implies value(text)[i] == bytes[i] by {
        let byte = bytes[i] as nat;
        assert((2 * i) / 2 == i && (2 * i) % 2 == 0);
        assert((2 * i + 1) / 2 == i && (2 * i + 1) % 2 == 1);
        assert(byte / 16 < 16 && byte % 16 < 16);
        assert(16 * (byte / 16) + byte % 16 == byte);
    }
    assert(value(text) =~= bytes);
}

/// A text is the notation of its value: no byte string has two notations.
pub proof fn lemma_notation_of_value(text: Seq<char>, count: nat)
    requires
        denotes(text, count),
    ensures
        value(text).len() == count,
        notation(value(text)) == text,
{
    reveal(notation);
    reveal(value);
    let bytes = value(text);
    assert forall|i: int| 0 <= i < text.len() implies notation(bytes)[i] == text[i] by {
        let k = i / 2;
        assert(0 <= k < bytes.len());
        let high = digit_value(text[2 * k]);
        let low = digit_value(text[2 * k + 1]);
        assert(is_digit(text[2 * k]) && is_digit(text[2 * k + 1]));
        assert(high < 16 && low < 16);
        assert(bytes[k] as nat == 16 * high + low);
        assert((16 * high + low) / 16 == high && (16 * high + low) % 16 == low);
        assert(i == 2 * k || i == 2 * k + 1);
    }
    assert(notation(bytes) =~= text);
}

/// The value of one lower-case hexadecimal digit.
pub fn hex_digit(c: char) -> (digit: Option<u8>)
    ensures
        digit is Some <==> is_digit(c),
        digit matches Some(d) ==> d == digit_value(c) && d < 16,
{
    if '0' <= c && c <= '9' {
        Some((c as u32 - 48) as u8)
    } else if 'a' <= c && c <= 'f' {
        Some((c as u32 - 87) as u8)
    } else {
        None
    }
}

/// The `N` bytes that a text is the notation of.
pub fn decode_hex<const N: usize>(text: &[char]) -> (bytes: Option<[u8; N]>)
    ensures
        bytes is Some <==> denotes(text@, N as nat),
        bytes matches Some(b) ==> b@ == value(text@),
{
    if text.len() % 2 != 0 || text.len() / 2 != N {
        return None;
    }
    let mut bytes: [u8; N] = [0u8;N];
    proof {
        reveal(value);
    }
    let mut index: usize = 0;
    while index < N
        invariant
            index <= N,
            text@.len() == 2 * N <= usize::MAX,
            bytes@.len() == N,
            forall|i: int| 0 <= i < 2 * index ==> is_digit(#[trigger] text@[i]),
            forall|i: int| 0 <= i < index ==> bytes@[i] == value(text@)[i],
        decreases N - index,
    {
        proof {
            reveal(value);
        }
        let high_digit = hex_digit(text[index * 2]);
        let low_digit = hex_digit(text[index * 2 + 1]);
        match (high_digit, low_digit) {
            (Some(high), Some(low)) => {
                bytes[index] = high * 16 + low;
            },
            _ => {
                assert(!is_digit(text@[2 * index as int]) || !is_digit(
                    text@[2 * index as int + 1],
                ));
                return None;
            },
        }
        index += 1;
    }
    assert(bytes@ =~= value(text@));
    Some(bytes)
}

/// One hexadecimal digit.
fn encode_digit(digit: u8) -> (c: char)
    requires
        digit < 16,
    ensures
        c == digit_char(digit as nat),
{
    if digit < 10 {
        (48 + digit) as char
    } else {
        (87 + digit) as char
    }
}

/// The notation of `N` bytes.
pub fn encode_hex<const N: usize>(bytes: &[u8; N]) -> (text: String)
    ensures
        text@ == notation(bytes@),
{
    let mut text = String::new();
    proof {
        reveal(notation);
    }
    let mut index: usize = 0;
    while index < N
        invariant
            index <= N,
            bytes@.len() == N,
            text@ == notation(bytes@).take(2 * index),
        decreases N - index,
    {
        let byte = bytes[index];
        text.push(encode_digit(byte / 16));
        text.push(encode_digit(byte % 16));
        index += 1;
        proof {
            reveal(notation);
            assert((2 * index - 2) / 2 == index - 1 && (2 * index - 1) / 2 == index - 1);
            assert((2 * index - 2) % 2 == 0 && (2 * index - 1) % 2 == 1);
            assert(text@ =~= notation(bytes@).take(2 * index));
        }
    }
    assert(notation(bytes@).take(2 * N) =~= notation(bytes@));
    text
}

} // verus!
