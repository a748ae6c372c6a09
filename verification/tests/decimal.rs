use memkv::decimal::{parse_i128, parse_u128, parse_u16, push_decimal};

fn decimal(n: u128) -> String {
    let mut out = String::new();
    push_decimal(&mut out, n);
    out
}

#[test]
fn parse_u16_reads_plain_digits() {
    assert_eq!(parse_u16("0"), Some(0));
    assert_eq!(parse_u16("7"), Some(7));
    assert_eq!(parse_u16("11211"), Some(11211));
    assert_eq!(parse_u16("65535"), Some(65535));
}

#[test]
fn parse_u16_takes_a_plus_sign_and_leading_zeros() {
    assert_eq!(parse_u16("+5"), Some(5));
    assert_eq!(parse_u16("007"), Some(7));
    assert_eq!(parse_u16("+00065535"), Some(65535));
    assert_eq!(parse_u16("0000000000000000000000000000000000000000000000001"), Some(1));
}

#[test]
fn parse_u16_refuses_what_does_not_fit() {
    assert_eq!(parse_u16("65536"), None);
    assert_eq!(parse_u16("70000"), None);
    assert_eq!(parse_u16("99999999999999999999999999999999999999999999"), None);
}

#[test]
fn parse_u16_refuses_what_is_no_number() {
    assert_eq!(parse_u16(""), None);
    assert_eq!(parse_u16("+"), None);
    assert_eq!(parse_u16("-"), None);
    assert_eq!(parse_u16("-5"), None);
    assert_eq!(parse_u16("-0"), None);
    assert_eq!(parse_u16("++5"), None);
    assert_eq!(parse_u16("5+"), None);
    assert_eq!(parse_u16("1a"), None);
    assert_eq!(parse_u16("a1"), None);
    assert_eq!(parse_u16(" 1"), None);
    assert_eq!(parse_u16("1 "), None);
    assert_eq!(parse_u16("1.0"), None);
    assert_eq!(parse_u16("0x10"), None);
    assert_eq!(parse_u16("١٢"), None);
    assert_eq!(parse_u16("99999a"), None);
}

#[test]
fn parse_u128_reads_up_to_its_maximum() {
    assert_eq!(parse_u128("0"), Some(0));
    assert_eq!(parse_u128("18446744073709551616"), Some(18446744073709551616));
    assert_eq!(parse_u128("340282366920938463463374607431768211455"), Some(u128::MAX));
    assert_eq!(parse_u128("+340282366920938463463374607431768211455"), Some(u128::MAX));
    assert_eq!(parse_u128("340282366920938463463374607431768211456"), None);
    assert_eq!(parse_u128("3402823669209384634633746074317682114550"), None);
    assert_eq!(parse_u128("-1"), None);
    assert_eq!(parse_u128(""), None);
}

#[test]
fn parse_i128_reads_both_signs() {
    assert_eq!(parse_i128("0"), Some(0));
    assert_eq!(parse_i128("-0"), Some(0));
    assert_eq!(parse_i128("+0"), Some(0));
    assert_eq!(parse_i128("-1"), Some(-1));
    assert_eq!(parse_i128("+42"), Some(42));
    assert_eq!(parse_i128("-0042"), Some(-42));
    assert_eq!(parse_i128("3600"), Some(3600));
}

#[test]
fn parse_i128_reads_up_to_its_limits() {
    assert_eq!(parse_i128("170141183460469231731687303715884105727"), Some(i128::MAX));
    assert_eq!(parse_i128("170141183460469231731687303715884105728"), None);
    assert_eq!(parse_i128("-170141183460469231731687303715884105728"), Some(i128::MIN));
    assert_eq!(parse_i128("-170141183460469231731687303715884105727"), Some(i128::MIN + 1));
    assert_eq!(parse_i128("-170141183460469231731687303715884105729"), None);
    assert_eq!(parse_i128("+170141183460469231731687303715884105728"), None);
}

#[test]
fn parse_i128_refuses_what_is_no_number() {
    assert_eq!(parse_i128(""), None);
    assert_eq!(parse_i128("-"), None);
    assert_eq!(parse_i128("+"), None);
    assert_eq!(parse_i128("--1"), None);
    assert_eq!(parse_i128("+-1"), None);
    assert_eq!(parse_i128("-+1"), None);
    assert_eq!(parse_i128("1-"), None);
    assert_eq!(parse_i128("12x"), None);
    assert_eq!(parse_i128("- 1"), None);
}

#[test]
fn parsers_agree_with_the_standard_library() {
    let samples = [
        "", "0", "+0", "-0", "1", "+1", "-1", "65535", "65536", "-65536", "0065535", "+", "-",
        "12a", "a12", " 12", "12 ", "1_000", "1e3", "340282366920938463463374607431768211455",
        "340282366920938463463374607431768211456", "170141183460469231731687303715884105727",
        "170141183460469231731687303715884105728", "-170141183460469231731687303715884105728",
        "-170141183460469231731687303715884105729", "٣", "１２",
    ];
    for text in samples {
        assert_eq!(parse_u16(text), text.parse::<u16>().ok(), "u16 of {:?}", text);
        assert_eq!(parse_u128(text), text.parse::<u128>().ok(), "u128 of {:?}", text);
        assert_eq!(parse_i128(text), text.parse::<i128>().ok(), "i128 of {:?}", text);
    }
}

#[test]
fn push_decimal_writes_the_digits() {
    assert_eq!(decimal(0), "0");
    assert_eq!(decimal(9), "9");
    assert_eq!(decimal(10), "10");
    assert_eq!(decimal(65535), "65535");
    assert_eq!(decimal(1_000_000), "1000000");
    assert_eq!(decimal(u128::MAX), "340282366920938463463374607431768211455");
}

#[test]
fn push_decimal_appends_to_what_is_there() {
    let mut out = String::from("n=");
    push_decimal(&mut out, 120);
    push_decimal(&mut out, 3);
    assert_eq!(out, "n=1203");
}

#[test]
fn digits_written_are_read_back() {
    for n in [0u128, 1, 9, 10, 99, 100, 65535, 65536, u64::MAX as u128, u128::MAX] {
        assert_eq!(parse_u128(&decimal(n)), Some(n));
    }
}
