use mchain::hasher::calculate_hash;
use mchain::text::{digit_str, push_decimal, push_hex};

#[test]
fn hash_of_known_fields() {
    assert_eq!(
        calculate_hash(0, 0, "", 0, ""),
        "2ac9a6746aca543af8dff39894cfe8173afba21eb01c6fae33d52947222855ef"
    );
    assert_eq!(
        calculate_hash(1, 1700000000, "MChain data #1", 42, "0"),
        "611772d4c2546d9767cf963807e47c52156dde6b8fa4b33b60a9039033909e5b"
    );
    assert_eq!(
        calculate_hash(0, 1700000000, "Genesis Block", 0, "0"),
        "350eb3c1b2f269ea15833ca415e6b272f1b12b00c9258004f0fc40cb9c4d1fdd"
    );
}

#[test]
fn hash_of_text_beyond_ascii() {
    assert_eq!(
        calculate_hash(7, 5, "héllo ✓", 3, "ab"),
        "5a9e89a1f25c3b16ca759cb32b52fdb1bf6d5c62497c8cc2ac344c26be665992"
    );
}

#[test]
fn hash_of_largest_numbers() {
    assert_eq!(
        calculate_hash(u64::MAX, u64::MAX, "x", u64::MAX, "y"),
        "e424fbc9fef6820f0d3cd8f374903740200b35ae62ab43bd1290ac3f509c4169"
    );
}

#[test]
fn hash_is_the_same_on_every_call() {
    let first = calculate_hash(3, 99, "payload", 17, "abc");
    let second = calculate_hash(3, 99, "payload", 17, "abc");
    assert_eq!(first, second);
}

#[test]
fn hash_is_lower_case_hex_of_64_characters() {
    let digest = calculate_hash(5, 6, "d", 7, "p");
    assert_eq!(digest.chars().count(), 64);
    assert!(digest.chars().all(|c| c.is_ascii_digit() || ('a'..='f').contains(&c)));
}

#[test]
fn hash_differs_from_its_input() {
    let digest = calculate_hash(1, 2, "abc", 3, "def");
    assert_ne!(digest, "12abc3def");
    assert_ne!(calculate_hash(1, 2, "abc", 3, "def"), calculate_hash(1, 2, "abd", 3, "def"));
    assert_ne!(calculate_hash(1, 2, "abc", 3, "def"), calculate_hash(1, 2, "abc", 4, "def"));
}

#[test]
fn fields_are_written_one_after_another() {
    // Nothing separates the fields, so these two blocks are digested alike.
    assert_eq!(calculate_hash(1, 23, "d", 0, "0"), calculate_hash(12, 3, "d", 0, "0"));
    assert_eq!(
        calculate_hash(1, 23, "d", 0, "0"),
        "7de49dd03793d681933791fe39ef165cef5b2a10450ea923dee544d9f91dc855"
    );
}

#[test]
fn decimal_numerals() {
    let mut out = String::new();
    push_decimal(&mut out, 0);
    assert_eq!(out, "0");
    push_decimal(&mut out, 10);
    assert_eq!(out, "010");
    let mut big = String::from("n=");
    push_decimal(&mut big, u64::MAX as u128);
    assert_eq!(big, "n=18446744073709551615");
    let mut bigger = String::new();
    push_decimal(&mut bigger, u128::MAX);
    assert_eq!(bigger, "340282366920938463463374607431768211455");
    let mut plain = String::new();
    push_decimal(&mut plain, 907);
    assert_eq!(plain, "907");
}

#[test]
fn hexadecimal_text() {
    let mut out = String::new();
    push_hex(&mut out, &[10, 20, 30]);
    assert_eq!(out, "0a141e");
    push_hex(&mut out, &[]);
    assert_eq!(out, "0a141e");
    push_hex(&mut out, &[0x00, 0xff, 0x9c]);
    assert_eq!(out, "0a141e00ff9c");
}

#[test]
fn digits_up_to_fifteen() {
    let all: Vec<&str> = (0u8..16).map(digit_str).collect();
    assert_eq!(all.concat(), "0123456789abcdef");
}
