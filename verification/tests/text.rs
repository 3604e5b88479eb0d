use kindle_dash::paths::join;
use kindle_dash::text::{
    chars_of, has_prefix, has_substring, has_suffix, lines_of, parse_decimal, split_at_first,
    text_eq, trimmed, trimmed_end, trimmed_start, whitespace, words_of, CharClass,
};

const SAMPLES: [&str; 14] = [
    "",
    " ",
    "a",
    "  a b\t",
    "\n",
    "\r\n",
    "one\ntwo",
    "one\r\ntwo\r\n",
    "one\n\nthree\n",
    "tail\r",
    "\u{3000}wide\u{a0}",
    "\u{85}x\u{2029}y\u{200b}",
    "key : value : more",
    "naïve café",
];

#[test]
fn whitespace_agrees_with_std_on_every_character() {
    for code in 0..=0x10ffffu32 {
        if let Some(c) = char::from_u32(code) {
            assert_eq!(whitespace(c), c.is_whitespace(), "{code:x}");
        }
    }
}

#[test]
fn trimming_agrees_with_std() {
    for s in SAMPLES {
        assert_eq!(trimmed(s, CharClass::Whitespace), s.trim());
        assert_eq!(trimmed_start(s, CharClass::Whitespace), s.trim_start());
        assert_eq!(trimmed_end(s, CharClass::Whitespace), s.trim_end());
    }
    assert_eq!(trimmed("\"\"x\"", CharClass::Exactly('"')), "x");
    assert_eq!(trimmed_end("5%%", CharClass::Exactly('%')), "5");
}

#[test]
fn splitting_agrees_with_std() {
    for s in SAMPLES {
        assert_eq!(lines_of(s), s.lines().collect::<Vec<&str>>());
        assert_eq!(words_of(s), s.split_whitespace().collect::<Vec<&str>>());
        assert_eq!(split_at_first(s, ':'), s.split_once(':'));
        assert_eq!(chars_of(s), s.chars().collect::<Vec<char>>());
    }
}

#[test]
fn searching_agrees_with_std() {
    for s in SAMPLES {
        for p in SAMPLES {
            assert_eq!(has_prefix(s, p), s.starts_with(p));
            assert_eq!(has_suffix(s, p), s.ends_with(p));
            assert_eq!(has_substring(s, p), s.contains(p));
            assert_eq!(text_eq(s, p), s == p);
        }
    }
    assert!(has_substring("ababac", "abac"));
    assert!(!has_substring("ababa", "abac"));
}

#[test]
fn decimal_numbers_agree_with_std() {
    for s in [
        "", "+", "-", "0", "+0", "-0", "7", "007", "+83", "++1", "1 ", " 1", "1_0", "9x", "255",
        "256", "18446744073709551615", "18446744073709551616", "99999999999999999999999x", "٣",
    ] {
        assert_eq!(parse_decimal(s, u64::MAX), s.parse::<u64>().ok(), "{s:?}");
        assert_eq!(parse_decimal(s, 255), s.parse::<u8>().ok().map(u64::from), "{s:?}");
    }
}

#[test]
fn joining_agrees_with_std() {
    for base in ["", "/", "/mnt/us", "/mnt/us/", "rel"] {
        for path in ["", "a", "/abs", "a/b", "./x", "../y"] {
            let expected = std::path::Path::new(base).join(path);
            assert_eq!(join(base, path), expected.to_string_lossy());
        }
    }
    assert_eq!(join("/mnt/us", "dash.png"), "/mnt/us/dash.png");
}
