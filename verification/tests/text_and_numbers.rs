use forgefin::number::{
    amount_or_zero, fmt_i64, fmt_u64, framed_count, framed_int, iso_date, parse_i64, parse_u64,
    parse_usize, zero_padded,
};
use forgefin::text::{
    contains_str, is_blank, is_whitespace, non_empty, or_dash, or_empty, split_whitespace, str_eq,
};

#[test]
fn blank_texts_are_whitespace_only() {
    assert!(is_blank(""));
    assert!(is_blank("  \t\n"));
    assert!(is_blank("\u{3000}"));
    assert!(!is_blank(" a "));
    assert!(is_whitespace('\u{a0}'));
    assert!(!is_whitespace('x'));
}

#[test]
fn equality_and_substrings() {
    assert!(str_eq("凭证", "凭证"));
    assert!(!str_eq("凭证", "凭证 "));
    assert!(contains_str("银行流水 2024", "流水"));
    assert!(contains_str("abc", ""));
    assert!(!contains_str("abc", "abcd"));
    assert!(!contains_str("abc", "ac"));
}

#[test]
fn words_split_on_any_whitespace() {
    let w = split_whitespace("  foo\tbar\u{3000}baz  ");
    assert_eq!(w, vec!["foo".to_string(), "bar".to_string(), "baz".to_string()]);
    assert!(split_whitespace("   ").is_empty());
}

#[test]
fn optional_texts() {
    assert_eq!(non_empty(String::new()), None);
    assert_eq!(non_empty(" ".to_string()), Some(" ".to_string()));
    assert_eq!(or_dash(&None), "—");
    assert_eq!(or_dash(&Some("x".to_string())), "x");
    assert_eq!(or_empty(&None), "");
}

#[test]
fn decimal_formatting() {
    assert_eq!(fmt_u64(0), "0");
    assert_eq!(fmt_u64(18446744073709551615), "18446744073709551615");
    assert_eq!(fmt_i64(-42), "-42");
    assert_eq!(fmt_i64(i64::MIN), "-9223372036854775808");
    assert_eq!(framed_count("共 ", 3, " 个文件"), "共 3 个文件");
    assert_eq!(framed_int("差额 ", -5, " 分"), "差额 -5 分");
    assert_eq!(zero_padded("7", 3), "007");
    assert_eq!(zero_padded("12345", 2), "12345");
}

#[test]
fn iso_dates_are_zero_padded() {
    assert_eq!(iso_date(2024, 6, 1), "2024-06-01");
    assert_eq!(iso_date(987, 12, 31), "0987-12-31");
}

#[test]
fn integer_parsing_follows_rust() {
    assert_eq!(parse_i64("42"), Some(42));
    assert_eq!(parse_i64("+7"), Some(7));
    assert_eq!(parse_i64("-9223372036854775808"), Some(i64::MIN));
    assert_eq!(parse_i64("9223372036854775808"), None);
    assert_eq!(parse_i64(""), None);
    assert_eq!(parse_i64("-"), None);
    assert_eq!(parse_i64("1,250"), None);
    assert_eq!(parse_i64(" 1"), None);
    assert_eq!(parse_u64("18446744073709551615"), Some(u64::MAX));
    assert_eq!(parse_u64("18446744073709551616"), None);
    assert_eq!(parse_u64("-0"), None);
    assert_eq!(parse_u64("+3"), Some(3));
    assert_eq!(parse_usize("5"), Some(5));
    assert_eq!(parse_usize("x"), None);
    for s in ["0", "12", "+12", "-12", "abc", "", "99999999999999999999"] {
        assert_eq!(parse_i64(s), s.parse::<i64>().ok(), "{s}");
        assert_eq!(parse_u64(s), s.parse::<u64>().ok(), "{s}");
    }
}

#[test]
fn amounts_read_as_zero_when_not_integers() {
    assert_eq!(amount_or_zero("1250"), 1250);
    assert_eq!(amount_or_zero("1,250.00"), 0);
    assert_eq!(amount_or_zero(""), 0);
    assert_eq!(amount_or_zero("-3"), -3);
}
