use tx_workbench::hash::Hash256;
use tx_workbench::hex::to_hex;
use tx_workbench::outpoint::{OutPoint, TokenError};

fn counting_hash() -> Hash256 {
    let mut bytes = [0u8; 32];
    for (i, byte) in bytes.iter_mut().enumerate() {
        *byte = (i as u8) * 8 + 1;
    }
    Hash256 { bytes }
}

const COUNTING_HEX: &str = "0109111921293139414951596169717981899199a1a9b1b9c1c9d1d9e1e9f1f9";

#[test]
fn bytes_are_written_high_half_first() {
    assert_eq!(to_hex(&[]), "");
    assert_eq!(to_hex(&[0x00]), "00");
    assert_eq!(to_hex(&[0x0f, 0xf0, 0xa5]), "0ff0a5");
    assert_eq!(to_hex(&[0x01, 0x23, 0x45, 0x67, 0x89, 0xab, 0xcd, 0xef]), "0123456789abcdef");
    assert_eq!(to_hex(&[0xff, 0x10]), "ff10");
}

#[test]
fn hash_is_read_from_64_digits() {
    assert_eq!(Hash256::parse(COUNTING_HEX), Some(counting_hash()));
}

#[test]
fn hash_is_read_in_upper_and_mixed_case() {
    assert_eq!(Hash256::parse(&COUNTING_HEX.to_uppercase()), Some(counting_hash()));
    let mixed = format!("{}{}", &COUNTING_HEX[..32].to_uppercase(), &COUNTING_HEX[32..]);
    assert_eq!(Hash256::parse(&mixed), Some(counting_hash()));
}

#[test]
fn hash_prefix_is_stripped() {
    assert_eq!(Hash256::parse(&format!("0x{}", COUNTING_HEX)), Some(counting_hash()));
    assert_eq!(Hash256::parse(&format!("0X{}", COUNTING_HEX)), Some(counting_hash()));
}

#[test]
fn hash_prefix_is_stripped_once_only() {
    assert_eq!(Hash256::parse(&format!("0x0x{}", &COUNTING_HEX[2..])), None);
    assert_eq!(Hash256::parse(&format!("0x0x{}", COUNTING_HEX)), None);
}

#[test]
fn hash_of_wrong_length_is_refused() {
    assert_eq!(Hash256::parse(""), None);
    assert_eq!(Hash256::parse("0x"), None);
    assert_eq!(Hash256::parse(&COUNTING_HEX[..63]), None);
    assert_eq!(Hash256::parse(&format!("{}0", COUNTING_HEX)), None);
    assert_eq!(Hash256::parse(&COUNTING_HEX[..62]), None);
}

#[test]
fn prefix_counts_for_none_of_the_64_digits() {
    // 64 digits that begin with "0x" are a prefix and 62 digits: no hash.
    let text = format!("0x{}", &COUNTING_HEX[..62]);
    assert_eq!(text.len(), 64);
    assert_eq!(Hash256::parse(&text), None);
}

#[test]
fn hash_with_other_characters_is_refused() {
    let bad = format!("{}g", &COUNTING_HEX[..63]);
    assert_eq!(Hash256::parse(&bad), None);
    let spaced = format!(" {}", &COUNTING_HEX[..63]);
    assert_eq!(Hash256::parse(&spaced), None);
    let wide = format!("{}é", &COUNTING_HEX[..63]);
    assert_eq!(Hash256::parse(&wide), None);
    let wide_64_bytes = format!("{}é", &COUNTING_HEX[..62]);
    assert_eq!(wide_64_bytes.len(), 64);
    assert_eq!(Hash256::parse(&wide_64_bytes), None);
}

#[test]
fn hash_is_written_as_lower_case_digits() {
    assert_eq!(counting_hash().to_hex(), COUNTING_HEX);
    assert_eq!(Hash256 { bytes: [0; 32] }.to_hex(), "0".repeat(64));
}

#[test]
fn hashes_are_the_same_when_their_bytes_are() {
    let mut other = counting_hash();
    assert!(counting_hash().same(&other));
    other.bytes[31] ^= 1;
    assert!(!counting_hash().same(&other));
    other.bytes[31] ^= 1;
    other.bytes[0] ^= 0x80;
    assert!(!counting_hash().same(&other));
}

#[test]
fn token_is_read() {
    let token = format!("{}-7", COUNTING_HEX);
    assert_eq!(OutPoint::parse(&token), Ok(OutPoint { tx_hash: counting_hash(), index: 7 }));
}

#[test]
fn token_with_prefix_is_read() {
    let expected = Ok(OutPoint { tx_hash: counting_hash(), index: 12 });
    assert_eq!(OutPoint::parse(&format!("0x{}-12", COUNTING_HEX)), expected);
    assert_eq!(OutPoint::parse(&format!("0X{}-12", COUNTING_HEX)), expected);
}

#[test]
fn token_without_dash_is_malformed() {
    assert_eq!(OutPoint::parse(COUNTING_HEX), Err(TokenError::Malformed));
    assert_eq!(OutPoint::parse(""), Err(TokenError::Malformed));
    assert_eq!(OutPoint::parse("abcdef"), Err(TokenError::Malformed));
}

#[test]
fn token_with_two_dashes_is_malformed() {
    assert_eq!(OutPoint::parse(&format!("{}-1-2", COUNTING_HEX)), Err(TokenError::Malformed));
    assert_eq!(OutPoint::parse(&format!("{}--1", COUNTING_HEX)), Err(TokenError::Malformed));
    assert_eq!(OutPoint::parse(&format!("-{}-1", COUNTING_HEX)), Err(TokenError::Malformed));
    assert_eq!(OutPoint::parse("--"), Err(TokenError::Malformed));
}

#[test]
fn token_with_bad_hash_fails_on_the_hash() {
    assert_eq!(OutPoint::parse("zz-0"), Err(TokenError::Hash));
    assert_eq!(OutPoint::parse("-0"), Err(TokenError::Hash));
    assert_eq!(OutPoint::parse("0x-0"), Err(TokenError::Hash));
    assert_eq!(OutPoint::parse(&format!("{}-0", &COUNTING_HEX[..63])), Err(TokenError::Hash));
}

#[test]
fn token_with_bad_hash_and_bad_index_fails_on_the_hash() {
    assert_eq!(OutPoint::parse("zz-x"), Err(TokenError::Hash));
    assert_eq!(OutPoint::parse("-"), Err(TokenError::Hash));
}

#[test]
fn token_with_bad_index_fails_on_the_index() {
    for index in ["", "x", "1x", "x1", " 1", "1 ", "0x1", "1.0", "+", "++1", "+ 1", "１"] {
        let token = format!("{}-{}", COUNTING_HEX, index);
        assert_eq!(OutPoint::parse(&token), Err(TokenError::Index), "index {:?}", index);
    }
}

#[test]
fn index_may_have_a_plus_sign_and_leading_zeros() {
    for (index, value) in [("+5", 5u32), ("007", 7), ("+000", 0), ("0", 0), ("00000000000004294967295", u32::MAX)] {
        let token = format!("{}-{}", COUNTING_HEX, index);
        assert_eq!(
            OutPoint::parse(&token),
            Ok(OutPoint { tx_hash: counting_hash(), index: value }),
            "index {:?}",
            index
        );
    }
}

#[test]
fn index_must_fit_32_bits() {
    let largest = format!("{}-4294967295", COUNTING_HEX);
    assert_eq!(OutPoint::parse(&largest), Ok(OutPoint { tx_hash: counting_hash(), index: u32::MAX }));
    for index in ["4294967296", "4294967300", "42949672950", "99999999999999999999999999", "18446744073709551616"] {
        let token = format!("{}-{}", COUNTING_HEX, index);
        assert_eq!(OutPoint::parse(&token), Err(TokenError::Index), "index {:?}", index);
    }
}

#[test]
fn token_is_written_with_lower_case_hash_and_decimal_index() {
    let out_point = OutPoint { tx_hash: counting_hash(), index: 1203 };
    assert_eq!(out_point.to_token(), format!("{}-1203", COUNTING_HEX));
    let first = OutPoint { tx_hash: Hash256 { bytes: [0xaa; 32] }, index: 0 };
    assert_eq!(first.to_token(), format!("{}-0", "a".repeat(64)));
    let last = OutPoint { tx_hash: Hash256 { bytes: [0xff; 32] }, index: u32::MAX };
    assert_eq!(last.to_token(), format!("{}-4294967295", "f".repeat(64)));
}

#[test]
fn written_token_is_read_back() {
    for index in [0u32, 1, 9, 10, 11, 99, 100, 65535, 65536, 4294967294, u32::MAX] {
        let out_point = OutPoint { tx_hash: counting_hash(), index };
        assert_eq!(OutPoint::parse(&out_point.to_token()), Ok(out_point));
    }
}

#[test]
fn read_token_is_read_back_from_what_it_writes() {
    for token in [
        format!("0x{}-+0010", COUNTING_HEX.to_uppercase()),
        format!("0X{}-3", COUNTING_HEX),
        format!("{}-4294967295", COUNTING_HEX),
    ] {
        let out_point = OutPoint::parse(&token).unwrap();
        assert_eq!(OutPoint::parse(&out_point.to_token()), Ok(out_point));
    }
}
