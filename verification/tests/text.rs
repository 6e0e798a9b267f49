use binarymagic::text::{decimal, hex_pair, join};

#[test]
fn hex_pairs_have_two_lower_case_digits() {
    assert_eq!(hex_pair(0x00), "00");
    assert_eq!(hex_pair(0x0a), "0a");
    assert_eq!(hex_pair(0x7f), "7f");
    assert_eq!(hex_pair(0x45), "45");
    assert_eq!(hex_pair(0xa0), "a0");
    assert_eq!(hex_pair(0xff), "ff");
}

#[test]
fn hex_pair_agrees_with_the_formatter_on_every_byte() {
    for byte in 0..=255u8 {
        assert_eq!(hex_pair(byte), format!("{:02x}", byte));
    }
}

#[test]
fn decimal_of_small_and_large_numbers() {
    assert_eq!(decimal(0), "0");
    assert_eq!(decimal(9), "9");
    assert_eq!(decimal(10), "10");
    assert_eq!(decimal(99), "99");
    assert_eq!(decimal(100), "100");
    assert_eq!(decimal(2048), "2048");
    assert_eq!(decimal(65535), "65535");
    assert_eq!(decimal(u64::MAX), "18446744073709551615");
}

#[test]
fn decimal_agrees_with_the_formatter() {
    let mut n: u64 = 1;
    for _ in 0..64 {
        assert_eq!(decimal(n), format!("{}", n));
        assert_eq!(decimal(n - 1), format!("{}", n - 1));
        n = n.wrapping_mul(3).wrapping_add(7);
    }
}

#[test]
fn join_puts_the_separator_between_parts_only() {
    let none: Vec<String> = vec![];
    assert_eq!(join(&none, " "), "");
    assert_eq!(join(&vec!["7f".to_string()], " "), "7f");
    assert_eq!(join(&vec!["7f".to_string(), "45".to_string()], " "), "7f 45");
    assert_eq!(
        join(&vec!["a".to_string(), "".to_string(), "b".to_string()], ", "),
        "a, , b"
    );
    assert_eq!(join(&vec!["a".to_string(), "b".to_string()], ""), "ab");
}
