use baru::number::{
    checked_sum, divide, pad_left, padded_decimal, parse_i32, parse_u32, percent,
    signed_decimal_string, to_signed, to_unsigned, IntError,
};

#[test]
fn percent_is_three_wide() {
    assert_eq!(percent(0), "  0%");
    assert_eq!(percent(5), "  5%");
    assert_eq!(percent(85), " 85%");
    assert_eq!(percent(100), "100%");
    assert_eq!(percent(1234), "1234%");
    assert_eq!(percent(-5), " -5%");
    assert_eq!(percent(-12), "-12%");
}

#[test]
fn percent_agrees_with_std_formatting() {
    for n in [-1000i64, -99, -10, -9, -1, 0, 1, 9, 10, 99, 100, 999, 4294967295] {
        assert_eq!(percent(n), format!("{:3}%", n));
    }
}

#[test]
fn decimal_of_extremes() {
    assert_eq!(signed_decimal_string(i64::MIN), "-9223372036854775808");
    assert_eq!(signed_decimal_string(i64::MAX), "9223372036854775807");
    assert_eq!(signed_decimal_string(0), "0");
    assert_eq!(signed_decimal_string(-1), "-1");
    assert_eq!(signed_decimal_string(1000), "1000");
}

#[test]
fn padding_counts_characters() {
    assert_eq!(pad_left("é", 3), "  é");
    assert_eq!(pad_left("abcd", 3), "abcd");
    assert_eq!(pad_left("", 2), "  ");
    assert_eq!(pad_left("x", 0), "x");
    assert_eq!(padded_decimal(42, 5), "   42");
    assert_eq!(padded_decimal(-42, 3), "-42");
}

#[test]
fn parse_i32_values() {
    assert_eq!(parse_i32("42"), Ok(42));
    assert_eq!(parse_i32("-42"), Ok(-42));
    assert_eq!(parse_i32("+42"), Ok(42));
    assert_eq!(parse_i32("007"), Ok(7));
    assert_eq!(parse_i32("-0"), Ok(0));
    assert_eq!(parse_i32("2147483647"), Ok(i32::MAX));
    assert_eq!(parse_i32("-2147483648"), Ok(i32::MIN));
    assert_eq!(parse_i32("00000000000000000000012"), Ok(12));
}

#[test]
fn parse_i32_errors() {
    assert_eq!(parse_i32(""), Err(IntError::Empty));
    assert_eq!(parse_i32("-"), Err(IntError::InvalidDigit));
    assert_eq!(parse_i32("+"), Err(IntError::InvalidDigit));
    assert_eq!(parse_i32("12a"), Err(IntError::InvalidDigit));
    assert_eq!(parse_i32(" 1"), Err(IntError::InvalidDigit));
    assert_eq!(parse_i32("1 "), Err(IntError::InvalidDigit));
    assert_eq!(parse_i32("--1"), Err(IntError::InvalidDigit));
    assert_eq!(parse_i32("１"), Err(IntError::InvalidDigit));
    assert_eq!(parse_i32("2147483648"), Err(IntError::PosOverflow));
    assert_eq!(parse_i32("-2147483649"), Err(IntError::NegOverflow));
    assert_eq!(parse_i32("99999999999x"), Err(IntError::PosOverflow));
    assert_eq!(parse_i32("-99999999999x"), Err(IntError::NegOverflow));
    assert_eq!(parse_i32("12x99999999999"), Err(IntError::InvalidDigit));
}

#[test]
fn parse_u32_values_and_errors() {
    assert_eq!(parse_u32("0"), Ok(0));
    assert_eq!(parse_u32("+7"), Ok(7));
    assert_eq!(parse_u32("4294967295"), Ok(u32::MAX));
    assert_eq!(parse_u32("4294967296"), Err(IntError::PosOverflow));
    assert_eq!(parse_u32("-0"), Err(IntError::InvalidDigit));
    assert_eq!(parse_u32("-1"), Err(IntError::InvalidDigit));
    assert_eq!(parse_u32(""), Err(IntError::Empty));
}

#[test]
fn parsing_agrees_with_std() {
    let samples = [
        "", "0", "1", "-1", "+1", "+", "-", "12a", "a12", "2147483647", "2147483648",
        "-2147483648", "-2147483649", "4294967295", "4294967296", "99999999999x",
        "-99999999999x", "1_000", " 5", "5 ", "0x10", "+-1", "000", "-000",
        "18446744073709551616",
    ];
    for s in samples {
        let std_i32 = s.parse::<i32>();
        match parse_i32(s) {
            Ok(v) => assert_eq!(std_i32, Ok(v)),
            Err(e) => assert_eq!(std_i32.unwrap_err().to_string(), e.message()),
        }
        let std_u32 = s.parse::<u32>();
        match parse_u32(s) {
            Ok(v) => assert_eq!(std_u32, Ok(v)),
            Err(e) => assert_eq!(std_u32.unwrap_err().to_string(), e.message()),
        }
    }
}

#[test]
fn error_messages() {
    assert_eq!(IntError::Empty.message(), "cannot parse integer from empty string");
    assert_eq!(IntError::InvalidDigit.message(), "invalid digit found in string");
    assert_eq!(IntError::PosOverflow.message(), "number too large to fit in target type");
    assert_eq!(IntError::NegOverflow.message(), "number too small to fit in target type");
}

#[test]
fn division_rounds_towards_zero() {
    assert_eq!(divide(7, 2), 3);
    assert_eq!(divide(-7, 2), -3);
    assert_eq!(divide(7, -2), -3);
    assert_eq!(divide(-7, -2), 3);
    assert_eq!(divide(0, -5), 0);
    assert_eq!(divide(i32::MIN, 1), i32::MIN);
    assert_eq!(divide(i32::MIN, 2), -1073741824);
    assert_eq!(divide(i32::MIN, -2), 1073741824);
    assert_eq!(divide(i32::MAX, -1), -i32::MAX);
    for (a, b) in [(100, 7), (-100, 7), (100, -7), (-100, -7), (5, 10), (-5, 10)] {
        assert_eq!(divide(a, b), a / b);
    }
}

#[test]
fn same_bits_in_the_other_sign() {
    assert_eq!(to_signed(0), 0);
    assert_eq!(to_signed(90), 90);
    assert_eq!(to_signed(2147483647), i32::MAX);
    assert_eq!(to_signed(2147483648), i32::MIN);
    assert_eq!(to_signed(u32::MAX), -1);
    assert_eq!(to_unsigned(-1), u32::MAX);
    assert_eq!(to_unsigned(i32::MIN), 2147483648);
    assert_eq!(to_unsigned(5), 5);
    for n in [0u32, 1, 2147483647, 2147483648, 4000000000, u32::MAX] {
        assert_eq!(to_signed(n), n as i32);
    }
    for n in [0i32, 1, -1, i32::MIN, i32::MAX] {
        assert_eq!(to_unsigned(n), n as u32);
    }
}

#[test]
fn sums() {
    assert_eq!(checked_sum(&vec![]), Some(0));
    assert_eq!(checked_sum(&vec![1, 2, 3]), Some(6));
    assert_eq!(checked_sum(&vec![i32::MAX, -1, 1]), Some(i32::MAX));
    assert_eq!(checked_sum(&vec![i32::MAX, 1, -1]), None);
    assert_eq!(checked_sum(&vec![i32::MIN, -1]), None);
}
