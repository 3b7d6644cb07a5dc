//! The 32-byte hash by which transactions are known.

use vstd::prelude::*;
use vstd::string::StrSliceExecFns;
use crate::hex::{decode_hex, encode_hex, is_hex, to_hex};

verus! {

/// The error of `numext_fixed_hash`, which is not looked into.
#[verifier::external_type_specification]
#[verifier::external_body]
pub struct ExFixedHashError(numext_fixed_hash::FixedHashError);

/// A hash of 32 bytes.
#[derive(Clone, Copy, Debug, PartialEq, Eq, PartialOrd, Ord, Hash)]
pub struct Hash256 {
    pub bytes: [u8; 32],
}

impl View for Hash256 {
    type V = Seq<u8>;

    open spec fn view(&self) -> Seq<u8> {
        self.bytes@
    }
}

/// Whether `text` writes a hash in full: 64 hexadecimal digits.
pub open spec fn is_hash_text(text: Seq<char>) -> bool {
    text.len() == 64 && is_hex(text)
}

/// `text` without a leading `0x` or `0X`.
pub open spec fn strip_hex_prefix(text: Seq<char>) -> Seq<char> {
    if text.len() >= 2 && text[0] == '0' && (text[1] == 'x' || text[1] == 'X') {
        text.skip(2)
    } else {
        text
    }
}

/// The hash that `text` writes, with or without the prefix.
pub open spec fn parse_hash(text: Seq<char>) -> Option<Seq<u8>> {
    let digits = strip_hex_prefix(text);
    if is_hash_text(digits) {
        Some(decode_hex(digits))
    } else {
        None
    }
}

/// `numext_fixed_hash::H256::from_hex_str`, with the hash handed over as its
/// bytes. The call succeeds on exactly the texts of 64 hexadecimal digits,
/// upper or lower case, and each byte of the hash is then made of two of
/// them, the first as the high half.
#[verifier::external_body]
fn h256_from_hex_str(text: &str) -> (r: Result<[u8; 32], numext_fixed_hash::FixedHashError>)
    ensures
        r is Ok <==> is_hash_text(text@),
        r matches Ok(bytes) ==> bytes@ == decode_hex(text@),
{
    numext_fixed_hash::H256::from_hex_str(text).map(|hash| hash.into_fixed_bytes())
}

impl Hash256 {
    /// Reads a hash from 64 hexadecimal digits after an optional `0x` or
    /// `0X`.
    pub fn parse(text: &str) -> (r: Option<Hash256>)
        ensures
            r is Some <==> parse_hash(text@) is Some,
            r matches Some(hash) ==> Some(hash@) == parse_hash(text@),
    {
        let n = text.unicode_len();
        let prefixed = n >= 2 && text.get_char(0) == '0' && (text.get_char(1) == 'x'
            || text.get_char(1) == 'X');
        let digits = if prefixed {
            let rest = text.substring_char(2, n);
            rest
        } else {
            text
        };
        match h256_from_hex_str(digits) {
            Ok(bytes) => Some(Hash256 { bytes }),
            Err(_) => None,
        }
    }

    /// The hash as 64 lower-case hexadecimal digits, without prefix.
    pub fn to_hex(&self) -> (text: String)
        ensures
            text@ == encode_hex(self@),
    {
        to_hex(self.bytes.as_slice())
    }

    /// Whether two hashes hold the same bytes.
    pub fn same(&self, other: &Hash256) -> (r: bool)
        ensures
            r == (self@ == other@),
    {
        let mut i: usize = 0;
        while i < 32
            invariant
                i <= 32,
                forall|j: int| 0 <= j < i ==> self.bytes@[j] == other.bytes@[j],
            decreases 32 - i,
        {
            if self.bytes[i] != other.bytes[i] {
                return false;
            }
            i = i + 1;
        }
        assert(self@ =~= other@);
        true
    }
}

/// A hash read back from its own text is the same hash.
pub proof fn lemma_parse_hash_of_hex(bytes: Seq<u8>)
    requires
        bytes.len() == 32,
    ensures
        parse_hash(encode_hex(bytes)) == Some(bytes),
{
    crate::hex::lemma_encode_is_hex(bytes);
    crate::hex::lemma_decode_encode(bytes);
    let text = encode_hex(bytes);
    assert(text[0] == crate::hex::hex_digit(bytes[0] / 16));
    assert(text[1] == crate::hex::hex_digit(bytes[0] % 16));
    assert(strip_hex_prefix(text) == text);
}

} // verus!
