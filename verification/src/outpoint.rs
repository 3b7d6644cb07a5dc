//! References to the outputs of earlier transactions, and the tokens that
//! write them: a hash in hexadecimal, a dash, an index in decimal.

use vstd::prelude::*;
use vstd::string::StrSliceExecFns;
use crate::decimal::{
    all_digits, decimal, decimal_value, is_digit, lemma_decimal, lemma_decimal_prefix,
    write_decimal,
};
use crate::hash::{parse_hash, Hash256};
use crate::hex::encode_hex;
use crate::text::chars_of;

verus! {

/// One output of one transaction.
#[derive(Clone, Copy, Debug, PartialEq, Eq)]
pub struct OutPoint {
    /// The hash of the transaction that made the cell.
    pub tx_hash: Hash256,
    /// The place of the cell among that transaction's outputs.
    pub index: u32,
}

/// What an `OutPoint` stands for.
pub struct OutPointModel {
    pub tx_hash: Seq<u8>,
    pub index: u32,
}

impl View for OutPoint {
    type V = OutPointModel;

    open spec fn view(&self) -> OutPointModel {
        OutPointModel { tx_hash: self.tx_hash@, index: self.index }
    }
}

/// Why a token writes no `OutPoint`.
#[derive(Clone, Copy, Debug, PartialEq, Eq, Structural)]
pub enum TokenError {
    /// The token has no dash, or more than one.
    Malformed,
    /// What stands before the dash is no hash.
    Hash,
    /// What stands after the dash is no index.
    Index,
}

/// `text` without a leading plus sign.
pub open spec fn strip_plus(text: Seq<char>) -> Seq<char> {
    if text.len() > 0 && text[0] == '+' {
        text.skip(1)
    } else {
        text
    }
}

/// The index that `text` writes: decimal digits, at least one, after an
/// optional plus sign, of a value that fits 32 bits.
pub open spec fn parse_index(text: Seq<char>) -> Option<u32> {
    let digits = strip_plus(text);
    if digits.len() > 0 && all_digits(digits) && decimal_value(digits) <= u32::MAX {
        Some(decimal_value(digits) as u32)
    } else {
        None
    }
}

/// The decimal digits of an index.
pub open spec fn format_index(n: u32) -> Seq<char> {
    decimal(n as nat)
}

/// Whether the only dash of `text` is at `at`.
pub open spec fn single_dash(text: Seq<char>, at: int) -> bool {
    &&& 0 <= at < text.len()
    &&& text[at] == '-'
    &&& forall|i: int| 0 <= i < text.len() && i != at ==> text[i] != '-'
}

/// Whether `text` falls into exactly two parts at its dashes.
pub open spec fn has_two_parts(text: Seq<char>) -> bool {
    exists|at: int| single_dash(text, at)
}

/// Where the dash of a text of two parts is.
pub open spec fn dash_position(text: Seq<char>) -> int {
    choose|at: int| single_dash(text, at)
}

/// What a dependency token writes, or why it writes nothing. The parts are
/// looked at in order: the split, then the hash, then the index.
pub open spec fn parse_dependency(token: Seq<char>) -> Result<OutPointModel, TokenError> {
    if !has_two_parts(token) {
        Err(TokenError::Malformed)
    } else {
        let at = dash_position(token);
        match parse_hash(token.take(at)) {
            None => Err(TokenError::Hash),
            Some(tx_hash) => match parse_index(token.skip(at + 1)) {
                None => Err(TokenError::Index),
                Some(index) => Ok(OutPointModel { tx_hash, index }),
            },
        }
    }
}

/// The token that writes `out_point`: the hash in lower case without
/// prefix, a dash, the index.
pub open spec fn format_dependency(out_point: OutPointModel) -> Seq<char> {
    encode_hex(out_point.tx_hash).push('-') + format_index(out_point.index)
}

/// A text has its dash in one place only.
pub proof fn lemma_dash_position(text: Seq<char>, at: int)
    requires
        single_dash(text, at),
    ensures
        has_two_parts(text),
        dash_position(text) == at,
{
    let chosen = dash_position(text);
    assert(single_dash(text, chosen));
    if chosen != at {
        assert(text[at] != '-');
    }
}

/// An index read back from its own digits is the same index.
pub proof fn lemma_parse_format_index(n: u32)
    ensures
        parse_index(format_index(n)) == Some(n),
{
    lemma_decimal(n as nat);
    let text = format_index(n);
    assert(is_digit(text[0]));
    assert(strip_plus(text) == text);
}

/// Reads the decimal index that `chars` holds from `from` on.
fn read_index(chars: &Vec<char>, from: usize) -> (r: Option<u32>)
    requires
        from <= chars.len(),
    ensures
        r == parse_index(chars@.skip(from as int)),
{
    let n = chars.len();
    let mut i: usize = from;
    if i < n && chars[i] == '+' {
        i = i + 1;
    }
    let start = i;
    let ghost digits = chars@.skip(start as int);
    if start == n {
        return None;
    }
    let mut value: u64 = 0;
    while i < n
        invariant
            start <= i <= n,
            n == chars.len(),
            digits == chars@.skip(start as int),
            digits == strip_plus(chars@.skip(from as int)),
            value <= u32::MAX,
            value == decimal_value(digits.take(i - start)),
            all_digits(digits.take(i - start)),
        decreases n - i,
    {
        let c: u32 = chars[i] as u32;
        if c < 48 || c > 57 {
            assert(!is_digit(digits[i - start]));
            return None;
        }
        let next: u64 = 10 * value + (c - 48) as u64;
        proof {
            let upto = digits.take(i - start + 1);
            assert(upto.drop_last() =~= digits.take(i - start));
        }
        if next > 0xffff_ffff {
            proof {
                lemma_decimal_prefix(digits, i - start + 1);
            }
            return None;
        }
        value = next;
        i = i + 1;
    }
    assert(digits.take(i - start) =~= digits);
    Some(value as u32)
}

impl OutPoint {
    /// Reads a dependency token.
    pub fn parse(token: &str) -> (r: Result<OutPoint, TokenError>)
        ensures
            match r {
                Ok(out_point) => parse_dependency(token@) == Ok::<OutPointModel, TokenError>(
                    out_point@,
                ),
                Err(e) => parse_dependency(token@) == Err::<OutPointModel, TokenError>(e),
            },
    {
        let chars = chars_of(token);
        let n = chars.len();
        let mut at: usize = 0;
        while at < n && chars[at] != '-'
            invariant
                at <= n,
                n == chars.len(),
                forall|i: int| 0 <= i < at ==> chars@[i] != '-',
            decreases n - at,
        {
            at = at + 1;
        }
        if at == n {
            return Err(TokenError::Malformed);
        }
        let mut j: usize = at + 1;
        while j < n
            invariant
                at < j <= n,
                n == chars.len(),
                chars@ == token@,
                chars@[at as int] == '-',
                forall|i: int| at < i < j ==> chars@[i] != '-',
            decreases n - j,
        {
            if chars[j] == '-' {
                return Err(TokenError::Malformed);
            }
            j = j + 1;
        }
        proof {
            lemma_dash_position(token@, at as int);
        }
        let hash_text = token.substring_char(0, at);
        match Hash256::parse(hash_text) {
            None => Err(TokenError::Hash),
            Some(tx_hash) => match read_index(&chars, at + 1) {
                None => Err(TokenError::Index),
                Some(index) => Ok(OutPoint { tx_hash, index }),
            },
        }
    }

    /// Writes the token of this `OutPoint`.
    pub fn to_token(&self) -> (token: String)
        ensures
            token@ == format_dependency(self@),
    {
        let mut token = self.tx_hash.to_hex();
        token.push('-');
        write_decimal(&mut token, self.index as u64);
        token
    }
}

} // verus!
