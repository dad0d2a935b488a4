use metro_sign::line::{get_line_color, get_line_string, get_string_line, Line, Rgb};
use metro_sign::text::{i64_to_dec, parse_i64, str_eq, u64_to_dec};

#[test]
fn parse_plain_numbers() {
    assert_eq!(parse_i64("0"), Some(0));
    assert_eq!(parse_i64("5"), Some(5));
    assert_eq!(parse_i64("1440"), Some(1440));
    assert_eq!(parse_i64("007"), Some(7));
}

#[test]
fn parse_signed_numbers() {
    assert_eq!(parse_i64("+5"), Some(5));
    assert_eq!(parse_i64("-3"), Some(-3));
    assert_eq!(parse_i64("-0"), Some(0));
}

#[test]
fn parse_extremes_and_overflow() {
    assert_eq!(parse_i64("9223372036854775807"), Some(i64::MAX));
    assert_eq!(parse_i64("9223372036854775808"), None);
    assert_eq!(parse_i64("-9223372036854775808"), Some(i64::MIN));
    assert_eq!(parse_i64("-9223372036854775809"), None);
    assert_eq!(parse_i64("99999999999999999999999999"), None);
}

#[test]
fn parse_rejects_non_numerals() {
    assert_eq!(parse_i64(""), None);
    assert_eq!(parse_i64("ARR"), None);
    assert_eq!(parse_i64("BRD"), None);
    assert_eq!(parse_i64("-"), None);
    assert_eq!(parse_i64("+"), None);
    assert_eq!(parse_i64("12a"), None);
    assert_eq!(parse_i64("1 2"), None);
    assert_eq!(parse_i64("--5"), None);
}

#[test]
fn parse_matches_std() {
    for s in ["0", "42", "-17", "+8", "1440", "ARR", "", "007", "9223372036854775808",
        "-9223372036854775808"] {
        assert_eq!(parse_i64(s), s.parse::<i64>().ok(), "input {:?}", s);
    }
}

#[test]
fn decimal_rendering() {
    assert_eq!(u64_to_dec(0), "0");
    assert_eq!(u64_to_dec(7), "7");
    assert_eq!(u64_to_dec(10), "10");
    assert_eq!(u64_to_dec(65536), "65536");
    assert_eq!(i64_to_dec(0), "0");
    assert_eq!(i64_to_dec(42), "42");
    assert_eq!(i64_to_dec(-13), "-13");
    assert_eq!(i64_to_dec(i64::MAX), "9223372036854775807");
    assert_eq!(i64_to_dec(i64::MIN), "-9223372036854775808");
}

#[test]
fn string_equality_by_characters() {
    assert!(str_eq("", ""));
    assert!(str_eq("RD", "RD"));
    assert!(!str_eq("RD", "rd"));
    assert!(!str_eq("RD", "RDX"));
    assert!(str_eq("naïve", "naïve"));
}

#[test]
fn line_codes_round_trip() {
    for line in [Line::RD, Line::OR, Line::SV, Line::YL, Line::GR, Line::BL, Line::TS] {
        let code = get_line_string(line);
        assert_eq!(get_string_line(&code), line);
    }
    assert_eq!(get_line_string(Line::UNKNOWN), "??");
    assert_eq!(get_string_line("??"), Line::UNKNOWN);
    assert_eq!(get_string_line("zz"), Line::UNKNOWN);
}

#[test]
fn line_colors() {
    assert_eq!(get_line_color(Line::RD), Rgb { r: 255, g: 0, b: 0 });
    assert_eq!(get_line_color(Line::OR), Rgb { r: 255, g: 85, b: 0 });
    assert_eq!(get_line_color(Line::YL), Rgb { r: 255, g: 255, b: 0 });
    assert_eq!(get_line_color(Line::GR), Rgb { r: 0, g: 255, b: 0 });
    assert_eq!(get_line_color(Line::BL), Rgb { r: 0, g: 0, b: 255 });
    assert_eq!(get_line_color(Line::TS), Rgb { r: 0, g: 51, b: 160 });
    assert_eq!(get_line_color(Line::SV), Rgb { r: 170, g: 170, b: 170 });
    assert_eq!(get_line_color(Line::UNKNOWN), Rgb { r: 110, g: 110, b: 110 });
}
