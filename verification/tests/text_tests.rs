use mcd_cli::text::{
    is_whitespace,
    confirms, parse_i32, parse_i32_or, parse_i64, parse_i64_or, read_line_opt, same_text,
    trim_line,
};

#[test]
fn trim_removes_surrounding_white_space() {
    assert_eq!(trim_line("  5 \n"), "5");
    assert_eq!(trim_line("\t南京市\u{3000}"), "南京市");
    assert_eq!(trim_line("a b"), "a b");
    assert_eq!(trim_line(" \r\n "), "");
    assert_eq!(trim_line(""), "");
}

#[test]
fn optional_answer_is_none_when_blank_or_unread() {
    assert_eq!(read_line_opt(None), None);
    assert_eq!(read_line_opt(Some("   \n")), None);
    assert_eq!(read_line_opt(Some("")), None);
    assert_eq!(read_line_opt(Some(" 先生 \n")), Some("先生".to_string()));
}

#[test]
fn same_text_compares_characters() {
    assert!(same_text("quit", "quit"));
    assert!(!same_text("quit", "qui"));
    assert!(!same_text("Q", "q"));
    assert!(same_text("", ""));
}

#[test]
fn confirmation_accepts_y_in_either_case() {
    assert!(confirms("y"));
    assert!(confirms("Y"));
    assert!(!confirms("yes"));
    assert!(!confirms("n"));
    assert!(!confirms(""));
}

#[test]
fn parse_i32_follows_decimal_numerals() {
    assert_eq!(parse_i32("12"), Some(12));
    assert_eq!(parse_i32("-7"), Some(-7));
    assert_eq!(parse_i32("+3"), Some(3));
    assert_eq!(parse_i32("007"), Some(7));
    assert_eq!(parse_i32("2147483647"), Some(i32::MAX));
    assert_eq!(parse_i32("-2147483648"), Some(i32::MIN));
    assert_eq!(parse_i32("2147483648"), None);
    assert_eq!(parse_i32("-2147483649"), None);
    assert_eq!(parse_i32(""), None);
    assert_eq!(parse_i32("-"), None);
    assert_eq!(parse_i32("+"), None);
    assert_eq!(parse_i32("1a"), None);
    assert_eq!(parse_i32(" 1"), None);
    assert_eq!(parse_i32("１"), None);
}

#[test]
fn parse_i32_agrees_with_std() {
    for s in ["0", "-0", "+0", "42", "-42", "99999999999", "abc", "--1", "+-1", "3.5", "1_000"] {
        assert_eq!(parse_i32(s), s.parse::<i32>().ok(), "{}", s);
    }
}

#[test]
fn parse_i64_follows_decimal_numerals() {
    assert_eq!(parse_i64("9223372036854775807"), Some(i64::MAX));
    assert_eq!(parse_i64("-9223372036854775808"), Some(i64::MIN));
    assert_eq!(parse_i64("9223372036854775808"), None);
    assert_eq!(parse_i64("99999999999999999999"), None);
    assert_eq!(parse_i64("-99999999999999999999"), None);
    assert_eq!(parse_i64("184467440737095516150"), None);
    assert_eq!(parse_i64("12345"), Some(12345));
    for s in ["18446744073709551615", "18446744073709551616", "-1", "x1"] {
        assert_eq!(parse_i64(s), s.parse::<i64>().ok(), "{}", s);
    }
}

#[test]
fn fallbacks_apply_only_to_non_numbers() {
    assert_eq!(parse_i32_or("1", 2), 1);
    assert_eq!(parse_i32_or("外送", 2), 2);
    assert_eq!(parse_i32_or("", 1), 1);
    assert_eq!(parse_i64_or("123456789012", 0), 123456789012);
    assert_eq!(parse_i64_or("spu", 0), 0);
}

#[test]
fn white_space_matches_std_for_every_char() {
    for c in (0u32..=0x10FFFF).filter_map(char::from_u32) {
        assert_eq!(is_whitespace(c), c.is_whitespace(), "U+{:04X}", c as u32);
    }
}

#[test]
fn trim_agrees_with_std() {
    for s in [" a", "a ", "\u{85}x\u{a0}", "\u{2028} \u{3000}", "\u{200b}x", "\u{feff}y"] {
        assert_eq!(trim_line(s), s.trim(), "{:?}", s);
    }
}
