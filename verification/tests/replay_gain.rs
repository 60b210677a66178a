use music_tagger::replay_gain::{
    format_replaygain_gain, format_replaygain_peak, parse_replaygain_value, GainValue,
    MAX_MILLIONTHS,
};

fn value(v: f64) -> GainValue {
    GainValue { millionths: (v * 1_000_000.0).round() as i64 }
}

fn number(v: GainValue) -> f64 {
    v.millionths as f64 / 1_000_000.0
}

fn parsed(text: &str) -> Option<f64> {
    parse_replaygain_value(text).map(number)
}

#[test]
fn test_parse_replaygain_value_valid_formats() {
    assert_eq!(parsed("+1.23 dB"), Some(1.23));
    assert_eq!(parsed("-1.23 dB"), Some(-1.23));
    assert_eq!(parsed("+0.00 dB"), Some(0.0));
    assert_eq!(parsed("-5.67 dB"), Some(-5.67));
    assert_eq!(parsed("+12.34 dB"), Some(12.34));

    assert_eq!(parsed("+1.23 db"), Some(1.23));
    assert_eq!(parsed("  +1.23 dB  "), Some(1.23));
    assert_eq!(parsed("+1.23dB"), Some(1.23));
    assert_eq!(parsed("+1.23db"), Some(1.23));
}

#[test]
fn test_parse_replaygain_value_invalid_formats() {
    assert_eq!(parsed(""), None);
    assert_eq!(parsed("invalid"), None);
    assert_eq!(parsed("dB"), None);
    assert_eq!(parsed("+1.23"), Some(1.23));
    assert_eq!(parsed("abc dB"), None);
}

#[test]
fn test_format_replaygain_gain() {
    assert_eq!(format_replaygain_gain(value(1.23)), "+1.23 dB");
    assert_eq!(format_replaygain_gain(value(12.34)), "+12.34 dB");

    assert_eq!(format_replaygain_gain(value(-1.23)), "-1.23 dB");
    assert_eq!(format_replaygain_gain(value(-5.67)), "-5.67 dB");

    assert_eq!(format_replaygain_gain(value(0.0)), "+0.00 dB");

    assert_eq!(format_replaygain_gain(value(1.23456)), "+1.23 dB");
    assert_eq!(format_replaygain_gain(value(-1.23456)), "-1.23 dB");
}

#[test]
fn test_format_replaygain_peak() {
    assert_eq!(format_replaygain_peak(value(0.123456)), "0.123456");
    assert_eq!(format_replaygain_peak(value(1.0)), "1.000000");
    assert_eq!(format_replaygain_peak(value(0.999999)), "0.999999");
    assert_eq!(format_replaygain_peak(value(0.0)), "0.000000");
    assert_eq!(format_replaygain_peak(value(0.123456789)), "0.123457");

    assert_eq!(format_replaygain_peak(value(-0.123456)), "-0.123456");
}

#[test]
fn test_parse_and_format_round_trip() {
    let test_values = [1.23, -1.23, 0.0, 12.34, -5.67];

    for &v in &test_values {
        let formatted = format_replaygain_gain(value(v));
        let parsed = parse_replaygain_value(&formatted).map(number);
        assert_eq!(parsed, Some(v), "Round trip failed for value: {}", v);
    }
}

#[test]
fn parsed_values_are_exact_millionths() {
    assert_eq!(parse_replaygain_value("+1.23 dB"), Some(GainValue { millionths: 1_230_000 }));
    assert_eq!(parse_replaygain_value("-0.5"), Some(GainValue { millionths: -500_000 }));
    assert_eq!(parse_replaygain_value("0.123457"), Some(GainValue { millionths: 123_457 }));
    assert_eq!(parse_replaygain_value("7"), Some(GainValue { millionths: 7_000_000 }));
    assert_eq!(parse_replaygain_value("7."), Some(GainValue { millionths: 7_000_000 }));
    assert_eq!(parse_replaygain_value(".5"), Some(GainValue { millionths: 500_000 }));
    assert_eq!(parse_replaygain_value("-.25 dB"), Some(GainValue { millionths: -250_000 }));
    assert_eq!(parse_replaygain_value("-0"), Some(GainValue { millionths: 0 }));
}

#[test]
fn digits_beyond_the_sixth_round_to_the_nearest_millionth() {
    assert_eq!(parse_replaygain_value("0.1234564"), Some(GainValue { millionths: 123_456 }));
    assert_eq!(parse_replaygain_value("0.1234565"), Some(GainValue { millionths: 123_457 }));
    assert_eq!(parse_replaygain_value("0.12345649999"), Some(GainValue { millionths: 123_456 }));
    assert_eq!(parse_replaygain_value("0.9999995"), Some(GainValue { millionths: 1_000_000 }));
    assert_eq!(parse_replaygain_value("-0.0000005"), Some(GainValue { millionths: -1 }));
}

#[test]
fn texts_that_write_no_decimal_number_are_absent() {
    assert_eq!(parse_replaygain_value("+"), None);
    assert_eq!(parse_replaygain_value("-"), None);
    assert_eq!(parse_replaygain_value("."), None);
    assert_eq!(parse_replaygain_value("+."), None);
    assert_eq!(parse_replaygain_value("1.2.3"), None);
    assert_eq!(parse_replaygain_value("1,23"), None);
    assert_eq!(parse_replaygain_value("1e3"), None);
    assert_eq!(parse_replaygain_value("--1"), None);
    assert_eq!(parse_replaygain_value("1 2"), None);
    assert_eq!(parse_replaygain_value("1.23 DB"), None);
    assert_eq!(parse_replaygain_value("1.2x"), None);
    assert_eq!(parse_replaygain_value("1.2345678x"), None);
    assert_eq!(parse_replaygain_value("   "), None);
}

#[test]
fn the_unit_is_stripped_as_often_as_it_stands_at_the_end() {
    assert_eq!(parse_replaygain_value("2dBdB"), Some(GainValue { millionths: 2_000_000 }));
    assert_eq!(parse_replaygain_value("2dbdb"), Some(GainValue { millionths: 2_000_000 }));
    assert_eq!(parse_replaygain_value("2 dbdB"), Some(GainValue { millionths: 2_000_000 }));
    // `db` is looked for only once `dB` has been taken away.
    assert_eq!(parse_replaygain_value("2 dBdb"), None);
    assert_eq!(parse_replaygain_value("2 dB db"), None);
}

#[test]
fn white_space_of_any_script_is_trimmed() {
    assert_eq!(parse_replaygain_value("\t+1.5 dB\r\n"), Some(GainValue { millionths: 1_500_000 }));
    assert_eq!(
        parse_replaygain_value("\u{a0}\u{2003}1.5\u{3000}dB\u{2028}"),
        Some(GainValue { millionths: 1_500_000 })
    );
    assert_eq!(parse_replaygain_value("\u{200b}1.5"), None);
}

#[test]
fn values_beyond_the_valid_range_are_absent() {
    assert_eq!(
        parse_replaygain_value("9000000000000"),
        Some(GainValue { millionths: MAX_MILLIONTHS })
    );
    assert_eq!(
        parse_replaygain_value("-9000000000000.000000 dB"),
        Some(GainValue { millionths: -MAX_MILLIONTHS })
    );
    assert_eq!(
        parse_replaygain_value("8999999999999.999999"),
        Some(GainValue { millionths: MAX_MILLIONTHS - 1 })
    );
    assert_eq!(
        parse_replaygain_value("9000000000000.0000004"),
        Some(GainValue { millionths: MAX_MILLIONTHS })
    );
    assert_eq!(parse_replaygain_value("9000000000000.0000005"), None);
    assert_eq!(parse_replaygain_value("9000000000000.000001"), None);
    assert_eq!(parse_replaygain_value("-9000000000000.000001"), None);
    assert_eq!(parse_replaygain_value("9000000000001"), None);
    assert_eq!(parse_replaygain_value("9223372036854.775807"), None);
    assert_eq!(parse_replaygain_value("-9223372036854.775808"), None);
    assert_eq!(parse_replaygain_value("99999999999999999999999999999"), None);
    assert_eq!(
        parse_replaygain_value("000000000000000000000000000001.5"),
        Some(GainValue { millionths: 1_500_000 })
    );
}

#[test]
fn a_value_is_valid_within_its_range() {
    assert!(GainValue { millionths: 0 }.is_valid());
    assert!(GainValue { millionths: MAX_MILLIONTHS }.is_valid());
    assert!(GainValue { millionths: -MAX_MILLIONTHS }.is_valid());
    assert!(!GainValue { millionths: MAX_MILLIONTHS + 1 }.is_valid());
    assert!(!GainValue { millionths: -MAX_MILLIONTHS - 1 }.is_valid());
    assert!(!GainValue { millionths: i64::MAX }.is_valid());
    assert!(!GainValue { millionths: i64::MIN }.is_valid());
    assert_eq!(GainValue::new(1_230_000), Some(GainValue { millionths: 1_230_000 }));
    assert_eq!(GainValue::new(-MAX_MILLIONTHS), Some(GainValue { millionths: -MAX_MILLIONTHS }));
    assert_eq!(GainValue::new(MAX_MILLIONTHS + 1), None);
    assert_eq!(GainValue::new(i64::MIN), None);
}

#[test]
fn gains_round_to_hundredths_with_halves_to_even() {
    assert_eq!(format_replaygain_gain(GainValue { millionths: 125_000 }), "+0.12 dB");
    assert_eq!(format_replaygain_gain(GainValue { millionths: 135_000 }), "+0.14 dB");
    assert_eq!(format_replaygain_gain(GainValue { millionths: 125_001 }), "+0.13 dB");
    assert_eq!(format_replaygain_gain(GainValue { millionths: -125_000 }), "-0.12 dB");
    assert_eq!(format_replaygain_gain(GainValue { millionths: 995_000 }), "+1.00 dB");
    assert_eq!(format_replaygain_gain(GainValue { millionths: 99_995_000 }), "+100.00 dB");
    assert_eq!(format_replaygain_gain(GainValue { millionths: -4_000 }), "-0.00 dB");
    assert_eq!(format_replaygain_gain(GainValue { millionths: -1 }), "-0.00 dB");
    assert_eq!(format_replaygain_gain(GainValue { millionths: -5_000 }), "-0.00 dB");
    assert_eq!(format_replaygain_gain(GainValue { millionths: 4_000 }), "+0.00 dB");
    assert_eq!(format_replaygain_gain(GainValue { millionths: 0 }), "+0.00 dB");
    assert_eq!(format_replaygain_gain(GainValue { millionths: -5_001 }), "-0.01 dB");
    assert_eq!(format_replaygain_gain(GainValue { millionths: 50_000 }), "+0.05 dB");
}

#[test]
fn the_largest_values_are_written_in_full() {
    assert_eq!(
        format_replaygain_peak(GainValue { millionths: MAX_MILLIONTHS }),
        "9000000000000.000000"
    );
    assert_eq!(
        format_replaygain_peak(GainValue { millionths: -MAX_MILLIONTHS }),
        "-9000000000000.000000"
    );
    assert_eq!(
        format_replaygain_gain(GainValue { millionths: MAX_MILLIONTHS }),
        "+9000000000000.00 dB"
    );
    assert_eq!(
        format_replaygain_gain(GainValue { millionths: -MAX_MILLIONTHS + 1 }),
        "-9000000000000.00 dB"
    );
    assert_eq!(
        format_replaygain_gain(GainValue { millionths: MAX_MILLIONTHS - 5_001 }),
        "+8999999999999.99 dB"
    );
    assert_eq!(format_replaygain_peak(GainValue { millionths: 1 }), "0.000001");
    assert_eq!(format_replaygain_peak(GainValue { millionths: -1 }), "-0.000001");
}

#[test]
fn peaks_read_back_to_the_millionth() {
    for m in [
        0i64,
        1,
        -1,
        999_999,
        1_000_000,
        123_456_789,
        -987_654_321,
        MAX_MILLIONTHS - 1,
        MAX_MILLIONTHS,
        -MAX_MILLIONTHS,
    ] {
        let text = format_replaygain_peak(GainValue { millionths: m });
        assert_eq!(parse_replaygain_value(&text), Some(GainValue { millionths: m }));
    }
}

#[test]
fn gains_read_back_rounded_to_hundredths() {
    for (m, rounded) in [
        (0i64, 0i64),
        (1_234_560, 1_230_000),
        (-1_234_560, -1_230_000),
        (1_235_000, 1_240_000),
        (1_245_000, 1_240_000),
        (-4_999, 0),
        (-1, 0),
        (89_990_000, 89_990_000),
        (MAX_MILLIONTHS, MAX_MILLIONTHS),
        (MAX_MILLIONTHS - 1, MAX_MILLIONTHS),
        (-MAX_MILLIONTHS + 4_999, -MAX_MILLIONTHS),
        (-MAX_MILLIONTHS + 5_001, -MAX_MILLIONTHS + 10_000),
    ] {
        let text = format_replaygain_gain(GainValue { millionths: m });
        assert_eq!(parse_replaygain_value(&text), Some(GainValue { millionths: rounded }));
    }
}
