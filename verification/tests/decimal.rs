use apibara_dna::decimal::{chars_of, parse_i64, push_decimal, push_padded, signed_decimal};
use apibara_dna::names::starts_with;

fn decimal(n: u128) -> String {
    let mut text = "n=".to_string();
    push_decimal(&mut text, n);
    text
}

fn padded(n: u128, width: usize) -> String {
    let mut text = String::new();
    push_padded(&mut text, n, width);
    text
}

#[test]
fn numbers_in_decimal() {
    for n in [0, 9, 10, 19, 100, 1_234_567_890, u64::MAX as u128, u128::MAX] {
        assert_eq!(decimal(n), format!("n={}", n));
        assert_eq!(padded(n, 10), format!("{:0>10}", n));
        assert_eq!(padded(n, 0), format!("{}", n));
    }
    assert_eq!(padded(0, 3), "000");
}

#[test]
fn signed_numbers_read_back() {
    for n in [0, 7, -7, 10, -10, i64::MAX, i64::MIN] {
        assert_eq!(signed_decimal(n), n.to_string());
        assert_eq!(parse_i64(&signed_decimal(n)), Some(n));
    }
}

#[test]
fn parsing_agrees_with_the_standard_library() {
    for text in ["", "1", "-1", "+1", "-", "+", "1a", "a1", "00", "9223372036854775808", "é", "1\n"] {
        assert_eq!(parse_i64(text), text.parse::<i64>().ok());
    }
}

#[test]
fn prefixes() {
    assert!(starts_with("canon/recent/x", "canon/recent/"));
    assert!(starts_with("canon/recent/", "canon/recent/"));
    assert!(!starts_with("canon/recent", "canon/recent/"));
    assert!(!starts_with("canon/retent/x", "canon/recent/"));
    assert!(starts_with("anything", ""));
    assert!(starts_with("éa", "é"));
    assert!(!starts_with("", "a"));
}

#[test]
fn characters_of_a_text() {
    assert_eq!(chars_of("aé\u{1f600}"), vec!['a', 'é', '\u{1f600}']);
    assert_eq!(chars_of(""), Vec::<char>::new());
}
