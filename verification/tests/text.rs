use discord_oauth_template::text::{
    i64_to_string, parse_i64, parse_u16, parse_u32, parse_u64, starts_with, str_eq, u64_to_string,
};

#[test]
fn test_parse_i64_accepts_what_std_accepts() {
    let cases = [
        "0", "7", "123", "-123", "+123", "-0", "+0", "007", "-007", "9223372036854775807",
        "-9223372036854775808", "9223372036854775808", "-9223372036854775809",
        "99999999999999999999999999", "", "-", "+", "+-1", "-+1", "--1", "1-", " 1", "1 ", "1_000",
        "0x10", "1.0", "1e3", "abc", "१२३", "-é", "+é", "12a", "a12",
    ];
    for case in cases {
        assert_eq!(parse_i64(case), case.parse::<i64>().ok(), "{:?}", case);
    }
}

#[test]
fn test_parse_i64_exact_values() {
    assert_eq!(parse_i64("123"), Some(123));
    assert_eq!(parse_i64("-9223372036854775808"), Some(i64::MIN));
    assert_eq!(parse_i64("9223372036854775807"), Some(i64::MAX));
    assert_eq!(parse_i64("9223372036854775808"), None);
    assert_eq!(parse_i64("not_a_number"), None);
}

#[test]
fn test_parse_unsigned_accepts_what_std_accepts() {
    let cases = [
        "0", "7", "+7", "-7", "-0", "65535", "65536", "4294967295", "4294967296",
        "18446744073709551615", "18446744073709551616", "000000000000000000000000065535", "", "+",
        "-", "７", "1,000", "0001",
    ];
    for case in cases {
        assert_eq!(parse_u64(case), case.parse::<u64>().ok(), "{:?}", case);
        assert_eq!(parse_u32(case), case.parse::<u32>().ok(), "{:?}", case);
        assert_eq!(parse_u16(case), case.parse::<u16>().ok(), "{:?}", case);
    }
}

#[test]
fn test_numbers_are_written_as_std_writes_them() {
    for n in [0u64, 1, 9, 10, 11, 99, 100, 1234567890, u64::MAX] {
        assert_eq!(u64_to_string(n), n.to_string());
    }
    for n in [0i64, 1, -1, 9, -9, 10, -10, 123, -123, i64::MAX, i64::MIN, i64::MIN + 1] {
        assert_eq!(i64_to_string(n), n.to_string());
    }
    assert_eq!(i64_to_string(-9223372036854775808), "-9223372036854775808");
    assert_eq!(u64_to_string(18446744073709551615), "18446744073709551615");
}

#[test]
fn test_written_numbers_read_back() {
    for n in [0i64, 5, -5, 1_000_000, i64::MAX, i64::MIN] {
        assert_eq!(parse_i64(&i64_to_string(n)), Some(n));
    }
}

#[test]
fn test_str_eq_and_starts_with() {
    assert!(str_eq("", ""));
    assert!(str_eq("premium", "premium"));
    assert!(!str_eq("premium", "premiun"));
    assert!(!str_eq("premium", "premiu"));
    assert!(!str_eq("é", "e"));
    assert!(str_eq("héllo", "héllo"));
    assert!(starts_with("a_123", "a_"));
    assert!(starts_with("a_", "a_"));
    assert!(starts_with("anything", ""));
    assert!(!starts_with("a", "a_"));
    assert!(!starts_with("b_123", "a_"));
    assert!(!starts_with("", "a_"));
    assert!(starts_with("éa_", "é"));
    assert!(!starts_with("ea_", "é"));
}
