use mcp_datadog::text::{
    chars_of, join, contains, decimal_i64, decimal_u64, ends_with, lower_hex_u64, parse_i64,
    split, starts_with,
};

#[test]
fn test_decimal_numerals() {
    assert_eq!(decimal_u64(0), "0");
    assert_eq!(decimal_u64(7), "7");
    assert_eq!(decimal_u64(10), "10");
    assert_eq!(decimal_u64(1234567890), "1234567890");
    assert_eq!(decimal_u64(u64::MAX), "18446744073709551615");
    assert_eq!(decimal_i64(0), "0");
    assert_eq!(decimal_i64(-1), "-1");
    assert_eq!(decimal_i64(i64::MAX), "9223372036854775807");
    assert_eq!(decimal_i64(i64::MIN), "-9223372036854775808");
}

#[test]
fn test_hexadecimal_numerals() {
    assert_eq!(lower_hex_u64(0), "0");
    assert_eq!(lower_hex_u64(15), "f");
    assert_eq!(lower_hex_u64(16), "10");
    assert_eq!(lower_hex_u64(0xdeadbeef), "deadbeef");
    assert_eq!(lower_hex_u64(u64::MAX), "ffffffffffffffff");
    for n in [1u64, 255, 256, 4095, 123456789, u64::MAX / 3] {
        assert_eq!(lower_hex_u64(n), format!("{:x}", n));
        assert_eq!(decimal_u64(n), format!("{}", n));
    }
}

#[test]
fn test_parse_i64_agrees_with_std() {
    for text in [
        "0", "7", "-7", "+7", "007", "-0", "", "-", "+", "--1", "1-", " 1", "1 ", "1_000", "12a",
        "٣", "9223372036854775807", "9223372036854775808", "-9223372036854775808",
        "-9223372036854775809", "99999999999999999999999999", "-99999999999999999999999999",
        "00000000000000000000000000000000000001",
    ] {
        assert_eq!(parse_i64(text), text.parse::<i64>().ok(), "for {:?}", text);
    }
}

#[test]
fn test_prefix_suffix_and_search() {
    assert!(starts_with("avg:cpu", "avg:"));
    assert!(!starts_with("avg", "avg:"));
    assert!(starts_with("avg", ""));
    assert!(starts_with("", ""));
    assert!(!starts_with("max:cpu", "avg:"));
    assert!(ends_with("a.rollup(avg, 60)", ")"));
    assert!(!ends_with("a", "ba"));
    assert!(ends_with("a", ""));
    assert!(contains("a.rollup(avg)", ".rollup("));
    assert!(!contains("a.rollup", ".rollup("));
    assert!(contains("abc", ""));
    assert!(contains("", ""));
    assert!(!contains("", "a"));
    assert!(contains("ééé.rollup(x", ".rollup("));
    assert!(contains("aab", "ab"));
}

#[test]
fn test_split_agrees_with_std() {
    for text in ["", ",", "a", "a,b", "a,,b", ",a,", "env:, service:", "é,ü"] {
        let expected: Vec<String> = text.split(',').map(str::to_string).collect();
        assert_eq!(split(text, ','), expected, "for {:?}", text);
    }
}

#[test]
fn test_chars_and_concat() {
    assert_eq!(chars_of("aé"), vec!['a', 'é']);
    assert_eq!(join("ab", "cd"), "abcd");
    assert_eq!(join("", ""), "");
}
