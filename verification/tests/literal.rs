use flags_codegen::literal::{bits_text, member_bits, parse_i64};

#[test]
fn member_bits_wraps_negative_one() {
    assert_eq!(member_bits(-1), 4294967295u32);
}

#[test]
fn member_bits_keeps_values_in_range() {
    assert_eq!(member_bits(0), 0);
    assert_eq!(member_bits(1), 1);
    assert_eq!(member_bits(2), 2);
    assert_eq!(member_bits(0x8000_0000), 0x8000_0000);
    assert_eq!(member_bits(4294967295), 4294967295);
}

#[test]
fn member_bits_wraps_values_out_of_range() {
    assert_eq!(member_bits(4294967296), 0);
    assert_eq!(member_bits(4294967297), 1);
    assert_eq!(member_bits(-2), 4294967294);
    assert_eq!(member_bits(-4294967296), 0);
    assert_eq!(member_bits(i64::MAX), 4294967295);
    assert_eq!(member_bits(i64::MIN), 0);
    assert_eq!(member_bits(0x1234_5678_9abc_def0), 0x9abc_def0);
}

#[test]
fn member_bits_is_the_cast() {
    let samples: [i64; 9] =
        [0, 1, -1, 255, -256, 4294967295, 4294967296, i64::MAX, i64::MIN];
    for value in samples {
        assert_eq!(member_bits(value), value as u32);
    }
}

#[test]
fn parse_reads_plain_digits() {
    assert_eq!(parse_i64("0"), Some(0));
    assert_eq!(parse_i64("1"), Some(1));
    assert_eq!(parse_i64("2"), Some(2));
    assert_eq!(parse_i64("1024"), Some(1024));
    assert_eq!(parse_i64("007"), Some(7));
}

#[test]
fn parse_reads_signs() {
    assert_eq!(parse_i64("-1"), Some(-1));
    assert_eq!(parse_i64("+5"), Some(5));
    assert_eq!(parse_i64("-0"), Some(0));
    assert_eq!(parse_i64("+0"), Some(0));
    assert_eq!(parse_i64("-2147483648"), Some(-2147483648));
}

#[test]
fn parse_reads_the_ends_of_the_range() {
    assert_eq!(parse_i64("9223372036854775807"), Some(i64::MAX));
    assert_eq!(parse_i64("-9223372036854775808"), Some(i64::MIN));
    assert_eq!(parse_i64("+9223372036854775807"), Some(i64::MAX));
}

#[test]
fn parse_refuses_values_that_do_not_fit() {
    assert_eq!(parse_i64("9223372036854775808"), None);
    assert_eq!(parse_i64("-9223372036854775809"), None);
    assert_eq!(parse_i64("18446744073709551616"), None);
    assert_eq!(parse_i64("99999999999999999999999999999999999999999"), None);
    assert_eq!(parse_i64("-99999999999999999999999999999999999999999"), None);
}

#[test]
fn parse_refuses_text_that_is_no_literal() {
    assert_eq!(parse_i64(""), None);
    assert_eq!(parse_i64("-"), None);
    assert_eq!(parse_i64("+"), None);
    assert_eq!(parse_i64("--1"), None);
    assert_eq!(parse_i64("+-1"), None);
    assert_eq!(parse_i64("1-"), None);
    assert_eq!(parse_i64("12a"), None);
    assert_eq!(parse_i64("a12"), None);
    assert_eq!(parse_i64(" 1"), None);
    assert_eq!(parse_i64("1 "), None);
    assert_eq!(parse_i64("1_000"), None);
    assert_eq!(parse_i64("0x10"), None);
    assert_eq!(parse_i64("1.0"), None);
    assert_eq!(parse_i64("\u{ff11}"), None);
    assert_eq!(parse_i64("\u{0661}"), None);
}

#[test]
fn parse_agrees_with_the_standard_library() {
    let samples = [
        "", "0", "1", "-1", "+1", "-", "+", "00", "-00", "+00", "4294967295", "4294967296",
        "-4294967296", "9223372036854775807", "9223372036854775808", "-9223372036854775808",
        "-9223372036854775809", "0000000000000000000000000000001", "12 ", " 12", "1e3", "١٢",
        "é", "+-0", "-+0", "0-", "92233720368547758070", "-92233720368547758080",
    ];
    for text in samples {
        assert_eq!(parse_i64(text), text.parse::<i64>().ok(), "{:?}", text);
    }
}

#[test]
fn bits_text_writes_decimal_digits() {
    assert_eq!(bits_text(0), "0");
    assert_eq!(bits_text(1), "1");
    assert_eq!(bits_text(9), "9");
    assert_eq!(bits_text(10), "10");
    assert_eq!(bits_text(255), "255");
    assert_eq!(bits_text(1000), "1000");
    assert_eq!(bits_text(2147483648), "2147483648");
    assert_eq!(bits_text(4294967295), "4294967295");
}

#[test]
fn bits_text_agrees_with_the_standard_library() {
    let samples: [u32; 12] =
        [0, 5, 9, 10, 11, 99, 100, 101, 65535, 65536, 1234567890, u32::MAX];
    for bits in samples {
        assert_eq!(bits_text(bits), bits.to_string());
    }
}

#[test]
fn bits_text_reads_back_as_the_same_pattern() {
    let samples: [u32; 8] = [0, 1, 2, 9, 10, 0x8000_0000, 0xffff_fffe, u32::MAX];
    for bits in samples {
        let text = bits_text(bits);
        let value = parse_i64(&text);
        assert_eq!(value, Some(bits as i64));
        assert_eq!(member_bits(value.unwrap()), bits);
    }
}
