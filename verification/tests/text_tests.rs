use ems::fixed::Milli;
use ems::text::{append_int, int_to_string, parse_i32, parse_milli, str_equal};

#[test]
fn parse_i32_reads_plain_and_signed_numbers() {
    assert_eq!(parse_i32("0"), Some(0));
    assert_eq!(parse_i32("2400"), Some(2400));
    assert_eq!(parse_i32("-350"), Some(-350));
    assert_eq!(parse_i32("+17"), Some(17));
    assert_eq!(parse_i32("007"), Some(7));
    assert_eq!(parse_i32("-0"), Some(0));
}

#[test]
fn parse_i32_reads_the_ends_of_the_range() {
    assert_eq!(parse_i32("2147483647"), Some(i32::MAX));
    assert_eq!(parse_i32("-2147483648"), Some(i32::MIN));
    assert_eq!(parse_i32("2147483648"), None);
    assert_eq!(parse_i32("-2147483649"), None);
    assert_eq!(parse_i32("99999999999999999999999999"), None);
}

#[test]
fn parse_i32_refuses_what_is_no_integer() {
    assert_eq!(parse_i32(""), None);
    assert_eq!(parse_i32("-"), None);
    assert_eq!(parse_i32("+"), None);
    assert_eq!(parse_i32("12.5"), None);
    assert_eq!(parse_i32(" 12"), None);
    assert_eq!(parse_i32("12 "), None);
    assert_eq!(parse_i32("+-3"), None);
    assert_eq!(parse_i32("1e3"), None);
    assert_eq!(parse_i32("\u{663}"), None);
    assert_eq!(parse_i32("1\u{e9}"), None);
}

#[test]
fn parse_i32_agrees_with_the_standard_parser() {
    let samples = vec![
        "0", "1", "-1", "+1", "42", "-42", "000", "2147483647", "2147483648", "-2147483648",
        "-2147483649", "", "-", "+", "--1", "1-", "a", "1a", "a1", " 1", "1 ", "1.0", "0x10",
        "9223372036854775807", "18446744073709551616", "+0", "-00012",
    ];
    for s in samples {
        assert_eq!(parse_i32(s), s.parse::<i32>().ok());
    }
}

#[test]
fn parse_milli_reads_decimals() {
    assert_eq!(parse_milli("85.5"), Some(Milli { thousandths: 85_500 }));
    assert_eq!(parse_milli("12"), Some(Milli { thousandths: 12_000 }));
    assert_eq!(parse_milli("-3.25"), Some(Milli { thousandths: -3_250 }));
    assert_eq!(parse_milli("+0.001"), Some(Milli { thousandths: 1 }));
    assert_eq!(parse_milli("5."), Some(Milli { thousandths: 5_000 }));
    assert_eq!(parse_milli(".5"), Some(Milli { thousandths: 500 }));
    assert_eq!(parse_milli("-.5"), Some(Milli { thousandths: -500 }));
    assert_eq!(parse_milli("0"), Some(Milli { thousandths: 0 }));
}

#[test]
fn parse_milli_rounds_to_the_nearest_thousandth() {
    assert_eq!(parse_milli("1.2349"), Some(Milli { thousandths: 1_235 }));
    assert_eq!(parse_milli("-1.2349"), Some(Milli { thousandths: -1_235 }));
    assert_eq!(parse_milli("1.2344"), Some(Milli { thousandths: 1_234 }));
    assert_eq!(parse_milli("1.2345"), Some(Milli { thousandths: 1_235 }));
    assert_eq!(parse_milli("-1.2345"), Some(Milli { thousandths: -1_235 }));
    assert_eq!(parse_milli("0.0009"), Some(Milli { thousandths: 1 }));
    assert_eq!(parse_milli("0.0004"), Some(Milli { thousandths: 0 }));
    assert_eq!(parse_milli("-0.0004"), Some(Milli { thousandths: 0 }));
    assert_eq!(parse_milli("0.00049999"), Some(Milli { thousandths: 0 }));
    assert_eq!(parse_milli("0.9995"), Some(Milli { thousandths: 1_000 }));
    assert_eq!(parse_milli("9.9999"), Some(Milli { thousandths: 10_000 }));
    assert_eq!(parse_milli("12.345678901234567890123"), Some(Milli { thousandths: 12_346 }));
}

#[test]
fn parse_milli_refuses_what_is_no_decimal() {
    assert_eq!(parse_milli(""), None);
    assert_eq!(parse_milli("."), None);
    assert_eq!(parse_milli("-"), None);
    assert_eq!(parse_milli("+."), None);
    assert_eq!(parse_milli("1.2.3"), None);
    assert_eq!(parse_milli("1,5"), None);
    assert_eq!(parse_milli("1e3"), None);
    assert_eq!(parse_milli("inf"), None);
    assert_eq!(parse_milli("NaN"), None);
    assert_eq!(parse_milli(" 1"), None);
    assert_eq!(parse_milli("1.5x"), None);
    assert_eq!(parse_milli("1.\u{e9}"), None);
}

#[test]
fn parse_milli_reads_the_ends_of_the_range() {
    assert_eq!(parse_milli("9223372036854775.807"), Some(Milli { thousandths: i64::MAX }));
    assert_eq!(parse_milli("-9223372036854775.808"), Some(Milli { thousandths: i64::MIN }));
    assert_eq!(parse_milli("9223372036854775.8074"), Some(Milli { thousandths: i64::MAX }));
    assert_eq!(parse_milli("9223372036854775.8075"), None);
    assert_eq!(parse_milli("-9223372036854775.8084"), Some(Milli { thousandths: i64::MIN }));
    assert_eq!(parse_milli("-9223372036854775.8085"), None);
    assert_eq!(parse_milli("9223372036854775.808"), None);
    assert_eq!(parse_milli("-9223372036854775.809"), None);
    assert_eq!(parse_milli("18446744073709551616"), None);
    assert_eq!(parse_milli("99999999999999999999999999.5"), None);
}

#[test]
fn parse_milli_agrees_with_floats_on_short_decimals() {
    let samples = vec![
        "0", "1", "85.5", "-3.25", "100", "0.125", "2400.0", "-0.5", "7.", ".25", "1.2349",
        "-1.2349", "0.0009", "3.14159", "99.9996",
    ];
    for s in samples {
        let expected = (s.parse::<f64>().unwrap() * 1000.0).round() as i64;
        assert_eq!(parse_milli(s), Some(Milli { thousandths: expected }));
    }
}

#[test]
fn int_to_string_writes_decimal_text() {
    assert_eq!(int_to_string(0), "0");
    assert_eq!(int_to_string(7), "7");
    assert_eq!(int_to_string(10), "10");
    assert_eq!(int_to_string(2400), "2400");
    assert_eq!(int_to_string(-1), "-1");
    assert_eq!(int_to_string(-47015), "-47015");
    assert_eq!(int_to_string(i64::MAX), "9223372036854775807");
    assert_eq!(int_to_string(i64::MIN), "-9223372036854775808");
}

#[test]
fn int_to_string_agrees_with_the_standard_formatter() {
    let samples: Vec<i64> = vec![0, 1, -1, 9, 10, 11, 99, 100, 101, -100, 1234567890, i64::MAX, i64::MIN];
    for n in samples {
        assert_eq!(int_to_string(n), format!("{}", n));
    }
}

#[test]
fn written_integers_read_back() {
    let samples: Vec<i32> = vec![0, 1, -1, 42, -350, 2400, i32::MAX, i32::MIN];
    for n in samples {
        assert_eq!(parse_i32(&int_to_string(n as i64)), Some(n));
    }
}

#[test]
fn append_int_keeps_what_was_there() {
    let mut out = String::from("v=");
    append_int(&mut out, -12);
    append_int(&mut out, 3);
    assert_eq!(out, "v=-123");
}

#[test]
fn str_equal_compares_characters() {
    assert!(str_equal("", ""));
    assert!(str_equal("BatterySOC", "BatterySOC"));
    assert!(!str_equal("BatterySOC", "BatterySoc"));
    assert!(!str_equal("Battery", "BatterySOC"));
    assert!(!str_equal("BatterySOC", "Battery"));
    assert!(str_equal("caf\u{e9}", "caf\u{e9}"));
    assert!(!str_equal("caf\u{e9}", "cafe"));
}
