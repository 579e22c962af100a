use nix_relay::text::{
    eq_ignore_ascii_case, parse_u64, same_text, strip_prefix, trim, trim_end_matches, NumberError,
};
use nix_relay::token::parse_duration;

#[test]
fn test_parse_duration() {
    assert_eq!(parse_duration("1h").unwrap(), 3600);
    assert_eq!(parse_duration("30m").unwrap(), 1800);
    assert_eq!(parse_duration("7d").unwrap(), 604800);
    assert_eq!(parse_duration("3600s").unwrap(), 3600);
    assert_eq!(parse_duration("3600").unwrap(), 3600);
    assert!(parse_duration("").is_err());
    assert!(parse_duration("abc").is_err());
}

#[test]
fn durations_say_what_is_wrong_with_them() {
    assert_eq!(parse_duration(" \t\n").unwrap_err(), "empty duration");
    assert_eq!(
        parse_duration(" abc ").unwrap_err(),
        "invalid duration 'abc': invalid digit found in string"
    );
    assert_eq!(
        parse_duration("h").unwrap_err(),
        "invalid duration 'h': cannot parse integer from empty string"
    );
    assert_eq!(
        parse_duration("18446744073709551616s").unwrap_err(),
        "invalid duration '18446744073709551616s': number too large to fit in target type"
    );
    assert_eq!(parse_duration("-1h").unwrap_err(), "invalid duration '-1h': invalid digit found in string");
    assert!(parse_duration("1 h").is_err());
    assert!(parse_duration("1hm").is_err());
}

#[test]
fn durations_count_in_units() {
    assert_eq!(parse_duration("  +5m ").unwrap(), 300);
    assert_eq!(parse_duration("0d").unwrap(), 0);
    assert_eq!(parse_duration("24h"), parse_duration("1d"));
    assert_eq!(parse_duration("60m"), parse_duration("1h"));
    assert_eq!(parse_duration("42"), parse_duration("42s"));
    for n in [0, 9, 10, 4096, u64::MAX - 1, u64::MAX] {
        assert_eq!(parse_duration(&n.to_string()), Ok(n));
        assert_eq!(parse_duration(&format!("{n}s")), Ok(n));
        assert_eq!(parse_duration(&format!(" \u{3000}{n}\t")), Ok(n));
    }
}

#[test]
fn durations_of_too_many_seconds_are_refused() {
    assert_eq!(
        parse_duration(" 213503982334602d").unwrap_err(),
        "invalid duration '213503982334602d': number too large to fit in target type"
    );
    assert_eq!(parse_duration("213503982334601d"), Ok(18446744073709526400));
    assert_eq!(parse_duration("307445734561825860m"), Ok(18446744073709551600));
    assert!(parse_duration("307445734561825861m").is_err());
    assert!(parse_duration("18446744073709551615h").is_err());
}

#[test]
fn numbers_read_as_in_std() {
    let texts = [
        "", "0", "7", "007", "+", "-", "+1", "-1", "++1", "1+", " 1", "1 ", "1_000", "0x10", "1.0",
        "18446744073709551615", "18446744073709551616", "99999999999999999999", "+18446744073709551615",
        "99999999999999999999x", "x99999999999999999999", "1844674407370955161x", "000000000000000000000001",
        "184467440737095516150", "\u{661}", "1\u{661}", "e", "12345678901234567890", "99999999999999999999 ",
    ];
    for s in texts {
        let expected: Result<u64, String> = s.parse::<u64>().map_err(|e| e.to_string());
        let read = parse_u64(s).map_err(|e| {
            match e {
                NumberError::Empty => "cannot parse integer from empty string",
                NumberError::InvalidDigit => "invalid digit found in string",
                NumberError::TooLarge => "number too large to fit in target type",
            }
            .to_string()
        });
        assert_eq!(read, expected, "{s:?}");
    }
}

#[test]
fn whitespace_is_that_of_unicode() {
    for n in 0..=0x10ffffu32 {
        if let Some(c) = char::from_u32(n) {
            let s = c.to_string();
            assert_eq!(trim(&s), s.trim(), "{n:x}");
        }
    }
    assert_eq!(trim(" \u{3000}a b\u{85}\n"), "a b");
    assert_eq!(trim("\u{e9}"), "\u{e9}");
}

#[test]
fn ends_are_cut() {
    assert_eq!(trim_end_matches("https://a//", '/'), "https://a");
    assert_eq!(trim_end_matches("///", '/'), "");
    assert_eq!(trim_end_matches("/a", '/'), "/a");
    assert_eq!(strip_prefix("Bearer x", "Bearer "), Some("x"));
    assert_eq!(strip_prefix("\u{e9}x", "\u{e9}"), Some("x"));
    assert_eq!(strip_prefix("Bear", "Bearer"), None);
    assert_eq!(strip_prefix("bearer x", "Bearer "), None);
}

#[test]
fn texts_are_compared() {
    assert!(same_text("", ""));
    assert!(same_text("ab", "ab"));
    assert!(!same_text("ab", "a"));
    assert!(!same_text("a", "ab"));
    assert!(!same_text("a", "A"));
    for (a, b) in [("", ""), ("MyOrg", "mYoRG"), ("\u{e9}", "\u{c9}"), ("[", "{"), ("@", "`"), ("Z", "z"), ("a", "ab")] {
        assert_eq!(eq_ignore_ascii_case(a, b), a.eq_ignore_ascii_case(b), "{a} {b}");
    }
}
