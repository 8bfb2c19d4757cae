use std::collections::HashSet;
use task_core::ids::{generate_id, make_id, u128_to_dec};

fn is_valid_token(token: &str) -> bool {
    let bytes = token.as_bytes();
    if bytes.len() < 10 {
        return false;
    }
    let hyphen_at = bytes.len() - 9;
    if bytes[hyphen_at] != b'-' {
        return false;
    }
    let digits_ok = bytes[..hyphen_at].iter().all(|b| b.is_ascii_digit());
    let hex_ok = bytes[hyphen_at + 1..]
        .iter()
        .all(|b| b.is_ascii_digit() || (b'a'..=b'f').contains(b));
    digits_ok && hex_ok
}

fn timestamp_prefix_value(token: &str) -> u128 {
    let hyphen_at = token.len() - 9;
    token[..hyphen_at].parse().unwrap()
}

#[test]
fn u128_to_dec_zero() {
    assert_eq!(u128_to_dec(0), "0");
}

#[test]
fn u128_to_dec_exact() {
    assert_eq!(u128_to_dec(1234567890), "1234567890");
}

#[test]
fn u128_to_dec_largest() {
    assert_eq!(
        u128_to_dec(u128::MAX),
        "340282366920938463463374607431768211455"
    );
}

#[test]
fn make_id_exact() {
    assert_eq!(make_id(12, "abcdefgh"), "12-abcdefgh");
}

#[test]
fn make_id_takes_first_eight_characters() {
    assert_eq!(make_id(5, "0123456789abcdef"), "5-01234567");
}

#[test]
fn generate_id_matches_pattern() {
    let token = generate_id().unwrap();
    assert!(
        is_valid_token(&token),
        "token {:?} does not match <digits>-<8 hex>",
        token
    );
    assert_eq!(token.len() - token.find('-').unwrap(), 9);
}

#[test]
fn generate_id_distinct_ten_thousand() {
    let mut seen: HashSet<String> = HashSet::new();
    for _ in 0..10_000 {
        let token = generate_id().unwrap();
        assert!(seen.insert(token), "duplicate identifier generated");
    }
}

#[test]
fn generate_id_prefix_non_decreasing() {
    let mut last: u128 = 0;
    for _ in 0..1_000 {
        let token = generate_id().unwrap();
        let value = timestamp_prefix_value(&token);
        assert!(value >= last, "timestamp prefix decreased");
        last = value;
    }
}

#[test]
fn generate_id_suffix_is_uuid_prefix_shaped() {
    let token = generate_id().unwrap();
    let suffix = &token[token.len() - 8..];
    assert_eq!(suffix.len(), 8);
    assert!(suffix
        .bytes()
        .all(|b| b.is_ascii_digit() || (b'a'..=b'f').contains(&b)));
}
