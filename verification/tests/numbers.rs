use cargo_supply_chain::numbers::{chars_of, parse_i32, parse_u64};

#[test]
fn decimal_digits_write_a_number() {
    assert_eq!(parse_u64("0"), Some(0));
    assert_eq!(parse_u64("7"), Some(7));
    assert_eq!(parse_u64("1234567890"), Some(1234567890));
    assert_eq!(parse_u64("000123"), Some(123));
    assert_eq!(parse_u64("+42"), Some(42));
}

#[test]
fn the_largest_number_fits_and_the_next_does_not() {
    assert_eq!(parse_u64("18446744073709551615"), Some(u64::MAX));
    assert_eq!(parse_u64("18446744073709551616"), None);
    assert_eq!(parse_u64("99999999999999999999999999"), None);
    assert_eq!(parse_u64("0000000000000000000000018446744073709551615"), Some(u64::MAX));
    assert_eq!(parse_u64("0xFFFFFFFFFFFFFFFF"), Some(u64::MAX));
    assert_eq!(parse_u64("0x10000000000000000"), None);
}

#[test]
fn what_is_no_number_is_rejected() {
    for text in ["", "+", "-", "-1", "-0", "1 ", " 1", "1_000", "12a", "a", "1.0", "1e3", "++1",
        "0x", "0x+", "0xg", "x10", "٣"] {
        assert_eq!(parse_u64(text), None, "{:?}", text);
    }
}

#[test]
fn hexadecimal_digits_follow_the_prefix() {
    assert_eq!(parse_u64("0x0"), Some(0));
    assert_eq!(parse_u64("0xff"), Some(255));
    assert_eq!(parse_u64("0xFf"), Some(255));
    assert_eq!(parse_u64("0x+a"), Some(10));
    assert_eq!(parse_u64("0X10"), None);
    assert_eq!(parse_u64("ff"), None);
    assert_eq!(parse_i32("0x-10"), Some(-16));
}

#[test]
fn signed_numbers_may_be_negative() {
    assert_eq!(parse_i32("0"), Some(0));
    assert_eq!(parse_i32("-0"), Some(0));
    assert_eq!(parse_i32("+1"), Some(1));
    assert_eq!(parse_i32("-1"), Some(-1));
    assert_eq!(parse_i32("2147483647"), Some(i32::MAX));
    assert_eq!(parse_i32("2147483648"), None);
    assert_eq!(parse_i32("-2147483648"), Some(i32::MIN));
    assert_eq!(parse_i32("-2147483649"), None);
    assert_eq!(parse_i32("-"), None);
    assert_eq!(parse_i32("--1"), None);
    assert_eq!(parse_i32("99999999999999999999999"), None);
}

#[test]
fn the_readers_agree_with_the_standard_ones_on_decimal_text() {
    for text in ["0", "1", "+1", "-1", "007", "4294967296", "", "+", "-", "12x", "-0",
        "18446744073709551615", "18446744073709551616", "2147483648", "-2147483648"] {
        assert_eq!(parse_u64(text), text.parse::<u64>().ok(), "{:?}", text);
        assert_eq!(parse_i32(text), text.parse::<i32>().ok(), "{:?}", text);
    }
}

#[test]
fn characters_come_one_by_one() {
    assert_eq!(chars_of("aé😀"), vec!['a', 'é', '😀']);
    assert_eq!(chars_of(""), Vec::<char>::new());
}
