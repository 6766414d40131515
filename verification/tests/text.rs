use wifi_captive::sorting::reverse_vec;
use wifi_captive::text::{parse_i32, str_contains, str_eq, u64_to_decimal, Ipv4Address};

#[test]
fn decimal_rendering() {
    assert_eq!(u64_to_decimal(0), "0");
    assert_eq!(u64_to_decimal(1234567890), "1234567890");
    assert_eq!(u64_to_decimal(u64::MAX), "18446744073709551615");
    assert_eq!(Ipv4Address { a: 192, b: 168, c: 42, d: 1 }.to_text(), "192.168.42.1");
    assert_eq!(Ipv4Address { a: 192, b: 168, c: 42, d: 1 }.to_u32(), 0xC0A8_2A01);
    assert_eq!(Ipv4Address { a: 8, b: 8, c: 4, d: 4 }.to_u32(), 0x0808_0404);
}

#[test]
fn integer_parsing() {
    assert_eq!(parse_i32("0"), Some(0));
    assert_eq!(parse_i32("-17"), Some(-17));
    assert_eq!(parse_i32("+2147483647"), Some(i32::MAX));
    assert_eq!(parse_i32("2147483648"), None);
    assert_eq!(parse_i32("-2147483649"), None);
    assert_eq!(parse_i32("99999999999999999999"), None);
    assert_eq!(parse_i32(""), None);
    assert_eq!(parse_i32("-"), None);
    assert_eq!(parse_i32("1a"), None);
    assert_eq!(parse_i32(" 1"), None);
    for s in ["12", "-3", "+4", "x", "", "2147483647", "-2147483648", "007"] {
        assert_eq!(parse_i32(s), s.parse::<i32>().ok(), "{}", s);
    }
}

#[test]
fn string_helpers() {
    assert!(str_eq("abc", "abc"));
    assert!(!str_eq("abc", "abd"));
    assert!(str_contains("text/html", "text"));
    assert!(!str_contains("image/png", "text"));
    assert!(str_contains("abc", ""));
    assert_eq!(wifi_captive::text::concat("ab", "cd"), "abcd");
    assert_eq!(reverse_vec(vec![1, 2, 3]), vec![3, 2, 1]);
}
