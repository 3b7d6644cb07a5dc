//! Hexadecimal text and the bytes it stands for.

use vstd::prelude::*;

verus! {

/// The value of a hexadecimal digit of either case, and nothing for any
/// other character.
pub open spec fn hex_digit_value(c: char) -> Option<u8> {
    let n = c as u32;
    if 48 <= n <= 57 {
        Some((n - 48) as u8)
    } else if 97 <= n <= 102 {
        Some((n - 87) as u8)
    } else if 65 <= n <= 70 {
        Some((n - 55) as u8)
    } else {
        None
    }
}

/// Whether `c` is a hexadecimal digit of either case.
pub open spec fn is_hex_digit(c: char) -> bool {
    hex_digit_value(c) is Some
}

/// Whether every character of `text` is a hexadecimal digit.
pub open spec fn is_hex(text: Seq<char>) -> bool {
    forall|i: int| 0 <= i < text.len() ==> is_hex_digit(#[trigger] text[i])
}

/// The value of a digit, taking 0 for what is no digit.
pub open spec fn nibble(c: char) -> int {
    match hex_digit_value(c) {
        Some(v) => v as int,
        None => 0,
    }
}

/// The lower-case digit for a value below 16.
pub open spec fn hex_digit(value: u8) -> char {
    if value < 10 {
        (48 + value) as u8 as char
    } else {
        (87 + value) as u8 as char
    }
}

/// The bytes written by `text`, two digits to a byte, the high one first.
pub open spec fn decode_hex(text: Seq<char>) -> Seq<u8> {
    Seq::new(text.len() / 2, |i: int| (16 * nibble(text[2 * i]) + nibble(text[2 * i + 1])) as u8)
}

/// The lower-case text that writes `bytes`.
pub open spec fn encode_hex(bytes: Seq<u8>) -> Seq<char> {
    Seq::new(
        2 * bytes.len(),
        |i: int|
            if i % 2 == 0 {
                hex_digit(bytes[i / 2] / 16)
            } else {
                hex_digit(bytes[i / 2] % 16)
            },
    )
}

/// A digit written for a value reads back as that value.
pub proof fn lemma_digit_round_trip(value: u8)
    requires
        value < 16,
    ensures
        hex_digit_value(hex_digit(value)) == Some(value),
{
}

/// Encoded bytes are hexadecimal text of twice their length.
pub proof fn lemma_encode_is_hex(bytes: Seq<u8>)
    ensures
        is_hex(encode_hex(bytes)),
        encode_hex(bytes).len() == 2 * bytes.len(),
{
    let text = encode_hex(bytes);
    assert forall|i: int| 0 <= i < text.len() implies is_hex_digit(#[trigger] text[i]) by {
        let b = bytes[i / 2];
        lemma_digit_round_trip(b / 16);
        lemma_digit_round_trip(b % 16);
    }
}

/// Decoding what was encoded gives the bytes back.
pub proof fn lemma_decode_encode(bytes: Seq<u8>)
    ensures
        decode_hex(encode_hex(bytes)) == bytes,
{
    let text = encode_hex(bytes);
    let back = decode_hex(text);
    assert(back.len() == bytes.len());
    assert forall|i: int| 0 <= i < bytes.len() implies back[i] == bytes[i] by {
        let b = bytes[i];
        lemma_digit_round_trip(b / 16);
        lemma_digit_round_trip(b % 16);
        assert(text[2 * i] == hex_digit(b / 16));
        assert(text[2 * i + 1] == hex_digit(b % 16));
    }
    assert(back =~= bytes);
}

/// The lower-case digit for a value below 16.
pub(crate) fn digit(value: u8) -> (c: char)
    requires
        value < 16,
    ensures
        c == hex_digit(value),
{
    if value < 10 {
        (48 + value) as char
    } else {
        (87 + value) as char
    }
}

/// Writes `bytes` as lower-case hexadecimal text.
pub fn to_hex(bytes: &[u8]) -> (text: String)
    ensures
        text@ == encode_hex(bytes@),
{
    let mut text = String::new();
    let mut i: usize = 0;
    while i < bytes.len()
        invariant
            i <= bytes.len(),
            text@ == encode_hex(bytes@.take(i as int)),
        decreases bytes.len() - i,
    {
        let b: u8 = bytes[i];
        text.push(digit(b / 16));
        text.push(digit(b % 16));
        i = i + 1;
    }
    text
}

} // verus!
