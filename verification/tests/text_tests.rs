use leaderboard_bridge::text::{
    chars_of, low_byte_of, push_decimal, push_hex_byte, push_signed_decimal,
};

fn decimal(n: u64) -> String {
    let mut s = String::new();
    push_decimal(&mut s, n);
    s
}

fn signed(n: i32) -> String {
    let mut s = String::new();
    push_signed_decimal(&mut s, n);
    s
}

fn hex(b: u8) -> String {
    let mut s = String::new();
    push_hex_byte(&mut s, b);
    s
}

#[test]
fn digits_are_lower_case() {
    let all: String = (0u8..16).map(|d| hex(d * 17)[1..].to_string()).collect();
    assert_eq!(all, "0123456789abcdef");
}

#[test]
fn decimal_of_small_and_large() {
    assert_eq!(decimal(0), "0");
    assert_eq!(decimal(9), "9");
    assert_eq!(decimal(10), "10");
    assert_eq!(decimal(239350), "239350");
    assert_eq!(decimal(76561197960287930), "76561197960287930");
    assert_eq!(decimal(u64::MAX), "18446744073709551615");
}

#[test]
fn decimal_appends() {
    let mut s = String::from("n=");
    push_decimal(&mut s, 1002);
    assert_eq!(s, "n=1002");
}

#[test]
fn decimal_agrees_with_formatting() {
    let mut n: u64 = 1;
    while n < u64::MAX / 7 {
        assert_eq!(decimal(n), format!("{}", n));
        assert_eq!(decimal(n - 1), format!("{}", n - 1));
        n *= 7;
    }
}

#[test]
fn signed_decimal_of_edges() {
    assert_eq!(signed(0), "0");
    assert_eq!(signed(-1), "-1");
    assert_eq!(signed(42), "42");
    assert_eq!(signed(i32::MAX), "2147483647");
    assert_eq!(signed(i32::MIN), "-2147483648");
}

#[test]
fn low_byte_is_the_last_byte() {
    assert_eq!(low_byte_of(0), 0);
    assert_eq!(low_byte_of(7), 7);
    assert_eq!(low_byte_of(255), 255);
    assert_eq!(low_byte_of(256), 0);
    assert_eq!(low_byte_of(0x1234), 0x34);
    assert_eq!(low_byte_of(-1), 255);
    assert_eq!(low_byte_of(-256), 0);
    assert_eq!(low_byte_of(-257), 255);
    assert_eq!(low_byte_of(i32::MIN), 0);
    assert_eq!(low_byte_of(i32::MAX), 255);
    for v in [-70000, -513, -255, -128, -2, 1, 127, 128, 1000, 65535, 65536] {
        assert_eq!(low_byte_of(v), v.to_le_bytes()[0], "{}", v);
    }
}

#[test]
fn hex_byte_has_two_digits() {
    assert_eq!(hex(0), "00");
    assert_eq!(hex(7), "07");
    assert_eq!(hex(10), "0a");
    assert_eq!(hex(0x10), "10");
    assert_eq!(hex(0xab), "ab");
    assert_eq!(hex(255), "ff");
    for b in 0u8..=255 {
        assert_eq!(hex(b), format!("{:02x}", b));
    }
}

#[test]
fn chars_are_collected_in_order() {
    assert_eq!(chars_of(""), Vec::<char>::new());
    assert_eq!(chars_of("a\u{e9}\u{1f600}z"), vec!['a', '\u{e9}', '\u{1f600}', 'z']);
}
