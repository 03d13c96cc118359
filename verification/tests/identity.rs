use splash::message::message_id;
use splash::text::decimal_text;
use std::collections::hash_map::DefaultHasher;
use std::hash::{Hash, Hasher};

fn expected_id(data: &Vec<u8>) -> String {
    let mut hasher = DefaultHasher::new();
    data.hash(&mut hasher);
    hasher.finish().to_string()
}

#[test]
fn decimal_of_zero() {
    assert_eq!(decimal_text(0), "0");
}

#[test]
fn decimal_of_single_digits() {
    assert_eq!(decimal_text(1), "1");
    assert_eq!(decimal_text(7), "7");
    assert_eq!(decimal_text(9), "9");
}

#[test]
fn decimal_of_round_numbers() {
    assert_eq!(decimal_text(10), "10");
    assert_eq!(decimal_text(100), "100");
    assert_eq!(decimal_text(307200), "307200");
}

#[test]
fn decimal_of_all_digits() {
    assert_eq!(decimal_text(1234567890), "1234567890");
}

#[test]
fn decimal_of_largest_number() {
    assert_eq!(decimal_text(u64::MAX), "18446744073709551615");
}

#[test]
fn decimal_agrees_with_std() {
    let mut n: u64 = 1;
    for _ in 0..64 {
        assert_eq!(decimal_text(n), n.to_string());
        assert_eq!(decimal_text(n - 1), (n - 1).to_string());
        n = n.wrapping_mul(3).wrapping_add(7);
    }
}

#[test]
fn identity_is_the_decimal_digest_of_the_bytes() {
    let data = "offer1xyz".as_bytes().to_vec();
    assert_eq!(message_id(&data), expected_id(&data));
}

#[test]
fn identity_of_empty_payload() {
    let data: Vec<u8> = Vec::new();
    assert_eq!(message_id(&data), expected_id(&data));
}

#[test]
fn identity_is_not_the_payload_itself() {
    let data = "12345".as_bytes().to_vec();
    assert_ne!(message_id(&data), "12345");
}

#[test]
fn equal_bytes_have_equal_identity() {
    let first = vec![1u8, 2, 3, 4, 5];
    let second = vec![1u8, 2, 3, 4, 5];
    assert_eq!(message_id(&first), message_id(&second));
}

#[test]
fn identity_is_stable_across_calls() {
    let data = vec![0u8; 1024];
    let once = message_id(&data);
    let twice = message_id(&data);
    assert_eq!(once, twice);
}

#[test]
fn different_bytes_have_different_identity() {
    let first = "offer1xyz".as_bytes().to_vec();
    let second = "offer1xyZ".as_bytes().to_vec();
    assert_ne!(message_id(&first), message_id(&second));
    assert_eq!(message_id(&second), expected_id(&second));
}

#[test]
fn identity_is_made_of_digits() {
    let id = message_id(&vec![9u8, 8, 7]);
    assert!(!id.is_empty());
    assert!(id.chars().all(|c| c.is_ascii_digit()));
}
