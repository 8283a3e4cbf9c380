//! Tests for the decimal codec: rendering, parsing, the exact error
//! messages, and the round trip.

use form_tool::decimal::{
    i32_to_dec, i64_optional_to_dec, i64_to_dec, parse_i32, parse_i32_trimmed, parse_i64,
    parse_i64_optional, parse_i64_or_default, parse_i64_trimmed, trim_spaces, u64_to_dec,
};

#[test]
fn renders_small_numbers() {
    assert_eq!(u64_to_dec(0), "0");
    assert_eq!(u64_to_dec(7), "7");
    assert_eq!(u64_to_dec(10), "10");
    assert_eq!(u64_to_dec(409), "409");
    assert_eq!(u64_to_dec(u64::MAX), "18446744073709551615");
}

#[test]
fn renders_signed_numbers() {
    assert_eq!(i64_to_dec(0), "0");
    assert_eq!(i64_to_dec(42), "42");
    assert_eq!(i64_to_dec(-1), "-1");
    assert_eq!(i64_to_dec(-370), "-370");
    assert_eq!(i64_to_dec(i64::MAX), "9223372036854775807");
    assert_eq!(i64_to_dec(i64::MIN), "-9223372036854775808");
    assert_eq!(i32_to_dec(i32::MIN), "-2147483648");
}

#[test]
fn parses_plain_numbers() {
    assert_eq!(parse_i64("0"), Ok(0));
    assert_eq!(parse_i64("25"), Ok(25));
    assert_eq!(parse_i64("007"), Ok(7));
    assert_eq!(parse_i64("+17"), Ok(17));
    assert_eq!(parse_i64("-0"), Ok(0));
    assert_eq!(parse_i64("-370"), Ok(-370));
    assert_eq!(parse_i64("9223372036854775807"), Ok(i64::MAX));
    assert_eq!(parse_i64("-9223372036854775808"), Ok(i64::MIN));
}

#[test]
fn rejects_unparseable_strings() {
    assert_eq!(parse_i64(""), Err("cannot parse integer from empty string".to_string()));
    for bad in ["abc", "-", "+", "12a", "a12", "1.5", " 25", "25 ", "--4", "+-1"] {
        assert_eq!(
            parse_i64(bad),
            Err("invalid digit found in string".to_string()),
            "input {:?}",
            bad
        );
    }
}

#[test]
fn rejects_out_of_range_values() {
    assert_eq!(
        parse_i64("9223372036854775808"),
        Err("number too large to fit in target type".to_string())
    );
    assert_eq!(
        parse_i64("-9223372036854775809"),
        Err("number too small to fit in target type".to_string())
    );
    // The whole string is checked before the range is, so unparseable
    // content wins over overflow.
    assert_eq!(
        parse_i64("99999999999999999999x"),
        Err("invalid digit found in string".to_string())
    );
}

#[test]
fn thirty_two_bit_parse_narrows_the_range() {
    assert_eq!(parse_i32("25"), Ok(25));
    assert_eq!(parse_i32("-2147483648"), Ok(i32::MIN));
    assert_eq!(parse_i32("2147483647"), Ok(i32::MAX));
    assert_eq!(
        parse_i32("2147483648"),
        Err("number too large to fit in target type".to_string())
    );
    assert_eq!(
        parse_i32("-2147483649"),
        Err("number too small to fit in target type".to_string())
    );
    assert_eq!(parse_i32("abc"), Err("invalid digit found in string".to_string()));
}

#[test]
fn parse_matches_standard_library_parse() {
    for s in ["", "abc", "25", "-370", "+17", "007", "1.5", "9223372036854775808"] {
        let expected: Result<i64, String> = s.parse::<i64>().map_err(|e| e.to_string());
        assert_eq!(parse_i64(s), expected, "input {:?}", s);
    }
}

#[test]
fn unparse_then_parse_round_trips() {
    let samples: Vec<i64> = vec![
        0,
        1,
        -1,
        9,
        10,
        -10,
        25,
        409,
        -99999,
        1000000007,
        i64::from(i32::MAX),
        i64::from(i32::MIN),
        i64::MAX,
        i64::MIN,
    ];
    for v in samples {
        assert_eq!(parse_i64(&i64_to_dec(v)), Ok(v), "value {}", v);
    }
    for v in [i32::MIN, -7, 0, 25, i32::MAX] {
        assert_eq!(parse_i32(&i32_to_dec(v)), Ok(v), "value {}", v);
    }
}

#[test]
fn trim_strips_surrounding_whitespace() {
    assert_eq!(trim_spaces("  25 \t"), "25");
    assert_eq!(trim_spaces("\n-3\r"), "-3");
    assert_eq!(trim_spaces("no trim"), "no trim");
    assert_eq!(trim_spaces("   "), "");
    assert_eq!(trim_spaces(""), "");
}

#[test]
fn trimmed_parse_accepts_padded_numbers() {
    assert_eq!(parse_i64_trimmed("  25 "), Ok(25));
    assert_eq!(parse_i64_trimmed("\t-370\n"), Ok(-370));
    assert_eq!(parse_i64_trimmed(" a "), Err("invalid digit found in string".to_string()));
    assert_eq!(parse_i64_trimmed("  "), Err("cannot parse integer from empty string".to_string()));
    assert_eq!(parse_i32_trimmed(" 2147483648 "), Err("number too large to fit in target type".to_string()));
    // Only surrounding whitespace is stripped; inner whitespace still
    // fails the parse.
    assert_eq!(parse_i64_trimmed(" 2 5 "), Err("invalid digit found in string".to_string()));
}

#[test]
fn optional_parse_maps_failure_to_no_value() {
    assert_eq!(parse_i64_optional("25"), Some(25));
    assert_eq!(parse_i64_optional("abc"), None);
    assert_eq!(parse_i64_optional(""), None);
    assert_eq!(i64_optional_to_dec(Some(-7)), "-7");
    assert_eq!(i64_optional_to_dec(None), "");
}

#[test]
fn defaulted_parse_falls_back_to_zero() {
    assert_eq!(parse_i64_or_default("25"), 25);
    assert_eq!(parse_i64_or_default("abc"), 0);
    assert_eq!(parse_i64_or_default(""), 0);
}
