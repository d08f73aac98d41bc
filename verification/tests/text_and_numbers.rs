use ev3dev_lang_rust::attribute::Attribute;
use ev3dev_lang_rust::error::{int_error, Ev3Error, OrErr};
use ev3dev_lang_rust::number::{format_i32, format_u8, parse_i32, parse_u8, IntErrorKind};
use ev3dev_lang_rust::text::{char_is_whitespace, contains, split_whitespace, trim_end};

fn chars(s: &str) -> Vec<char> {
    s.chars().collect()
}

#[test]
fn trim_end_removes_trailing_white_space_only() {
    assert_eq!(trim_end("  outA \n"), "  outA");
    assert_eq!(trim_end("running\t\r\n"), "running");
    assert_eq!(trim_end(""), "");
    assert_eq!(trim_end(" \n "), "");
    assert_eq!(trim_end("a\u{3000}"), "a");
}

#[test]
fn trim_end_is_idempotent() {
    let once = trim_end("lego-ev3-l-motor\n\n");
    assert_eq!(trim_end(&once), once);
}

#[test]
fn whitespace_follows_unicode() {
    assert!(char_is_whitespace(' '));
    assert!(char_is_whitespace('\u{85}'));
    assert!(char_is_whitespace('\u{2029}'));
    assert!(!char_is_whitespace('x'));
    assert!(!char_is_whitespace('\u{200b}'));
    for c in ['\t', '\n', '\u{b}', '\u{c}', '\r', '\u{a0}', '\u{1680}', '\u{2000}', '\u{200a}', '\u{202f}', '\u{205f}', 'a', '0', '_'] {
        assert_eq!(char_is_whitespace(c), c.is_whitespace());
    }
}

#[test]
fn split_whitespace_gives_the_words() {
    assert_eq!(split_whitespace("running ramping\n"), vec!["running", "ramping"]);
    assert_eq!(split_whitespace("  a  b\t\tc  "), vec!["a", "b", "c"]);
    assert!(split_whitespace("   ").is_empty());
    assert!(split_whitespace("").is_empty());
    assert_eq!(split_whitespace("run-forever"), vec!["run-forever"]);
}

#[test]
fn contains_finds_substrings() {
    assert!(contains("ev3-ports:outA:lego-ev3-l-motor", "outA"));
    assert!(!contains("ev3-ports:outB", "outA"));
    assert!(contains("abc", ""));
    assert!(!contains("", "a"));
    assert!(contains("led0:red:brick-status", "red:"));
}

#[test]
fn parse_i32_reads_decimal_integers() {
    assert_eq!(parse_i32(&chars("42")), Ok(42));
    assert_eq!(parse_i32(&chars("-17")), Ok(-17));
    assert_eq!(parse_i32(&chars("+5")), Ok(5));
    assert_eq!(parse_i32(&chars("2147483647")), Ok(i32::MAX));
    assert_eq!(parse_i32(&chars("-2147483648")), Ok(i32::MIN));
    assert_eq!(parse_i32(&chars("007")), Ok(7));
}

#[test]
fn parse_i32_errors_as_std_does() {
    for text in ["", "-", "+", "1a", "a1", "2147483648", "-2147483649", "99999999999x", " 1", "1 ", "--1"] {
        let expected = text.parse::<i32>().unwrap_err();
        let got = parse_i32(&chars(text)).unwrap_err();
        let e = int_error(got);
        assert_eq!(e, Ev3Error::InternalError { msg: expected.to_string() }, "text {:?}", text);
    }
    assert_eq!(parse_i32(&chars("")), Err(IntErrorKind::Empty));
    assert_eq!(parse_i32(&chars("-")), Err(IntErrorKind::InvalidDigit));
    assert_eq!(parse_i32(&chars("2147483648")), Err(IntErrorKind::PosOverflow));
    assert_eq!(parse_i32(&chars("-2147483649")), Err(IntErrorKind::NegOverflow));
    assert_eq!(parse_i32(&chars("99999999999x")), Err(IntErrorKind::PosOverflow));
}

#[test]
fn parse_u8_reads_bytes() {
    assert_eq!(parse_u8(&chars("255")), Ok(255));
    assert_eq!(parse_u8(&chars("0")), Ok(0));
    assert_eq!(parse_u8(&chars("256")), Err(IntErrorKind::PosOverflow));
    assert_eq!(parse_u8(&chars("-0")), Err(IntErrorKind::InvalidDigit));
    for text in ["", "+", "-1", "300", "12a"] {
        let expected = text.parse::<u8>().unwrap_err();
        let e = int_error(parse_u8(&chars(text)).unwrap_err());
        assert_eq!(e, Ev3Error::InternalError { msg: expected.to_string() }, "text {:?}", text);
    }
}

#[test]
fn format_matches_to_string() {
    for v in [0, 1, -1, 9, 10, -10, 12345, i32::MAX, i32::MIN] {
        assert_eq!(format_i32(v), v.to_string());
    }
    for v in [0u8, 7, 10, 128, 255] {
        assert_eq!(format_u8(v), v.to_string());
    }
}

#[test]
fn written_integers_read_back() {
    for v in [0, 1, -1, 50, -100, 2400, i32::MAX, i32::MIN] {
        assert_eq!(Attribute::get_i32(&Attribute::set_i32(v)), Ok(v));
    }
    for v in [0u8, 25, 128, 255] {
        assert_eq!(Attribute::get_u8(&Attribute::set_u8(v)), Ok(v));
    }
}

#[test]
fn or_err_maps_none_to_internal_error() {
    assert_eq!(Some(3).or_err(), Ok(3));
    let none: Option<i32> = None;
    assert_eq!(none.or_err(), Err(Ev3Error::InternalError { msg: "Cannot unwrap option".to_owned() }));
}

#[test]
fn error_duplicate_is_equal() {
    let e = Ev3Error::InternalError { msg: "x".to_owned() };
    assert_eq!(e.duplicate(), e);
    assert_eq!(Ev3Error::NotFound.duplicate(), Ev3Error::NotFound);
    assert_eq!(Ev3Error::MultipleMatches.duplicate(), Ev3Error::MultipleMatches);
}
