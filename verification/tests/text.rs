use crepuscularity_cli::num::{parse_i64, parse_u32, push_decimal_u128, push_signed_decimal, u64_to_string};
use crepuscularity_cli::text::{
    contains_str, find_str, lex_less, lines_of, replace_first_str, replace_str, split_by_char,
    to_ascii_lowercase, trim_string,
};

#[test]
fn integers_parse_as_std_does() {
    assert_eq!(parse_i64("42"), Some(42));
    assert_eq!(parse_i64("+7"), Some(7));
    assert_eq!(parse_i64("-9223372036854775808"), Some(i64::MIN));
    assert_eq!(parse_i64("9223372036854775807"), Some(i64::MAX));
    assert_eq!(parse_i64("9223372036854775808"), None);
    assert_eq!(parse_i64("-"), None);
    assert_eq!(parse_i64(""), None);
    assert_eq!(parse_i64("1.5"), None);
    assert_eq!(parse_u32("4294967295"), Some(u32::MAX));
    assert_eq!(parse_u32("4294967296"), None);
    assert_eq!(parse_u32("-1"), None);
    assert_eq!(parse_u32("+3"), Some(3));
}

#[test]
fn decimals_are_written_as_std_does() {
    assert_eq!(u64_to_string(0), "0");
    assert_eq!(u64_to_string(u64::MAX), u64::MAX.to_string());
    let mut s = String::from("n=");
    push_signed_decimal(&mut s, -1205);
    assert_eq!(s, "n=-1205");
    let mut t = String::new();
    push_signed_decimal(&mut t, i64::MIN);
    assert_eq!(t, i64::MIN.to_string());
    let mut u = String::new();
    push_decimal_u128(&mut u, u128::MAX);
    assert_eq!(u, u128::MAX.to_string());
}

#[test]
fn replacing_text() {
    assert_eq!(replace_str("a-b-c", "-", "+"), "a+b+c");
    assert_eq!(replace_str("aaa", "aa", "b"), "ba");
    assert_eq!(replace_str("ab", "", "-"), "-a-b-");
    assert_eq!(replace_str("abc", "x", "y"), "abc");
    assert_eq!(replace_first_str("a-b-c", "-", "+"), "a+b-c");
    assert_eq!(replace_first_str("abc", "z", "+"), "abc");
}

#[test]
fn splitting_and_lines() {
    assert_eq!(split_by_char("a/b//c", '/'), vec!["a", "b", "", "c"]);
    assert_eq!(split_by_char("", '/'), vec![""]);
    assert_eq!(lines_of("one\r\ntwo\n\nthree"), vec!["one", "two", "", "three"]);
    assert_eq!(lines_of("end\n"), vec!["end"]);
    assert!(lines_of("").is_empty());
}

#[test]
fn searching_and_comparing() {
    assert_eq!(find_str("hello", "ll"), Some(2));
    assert_eq!(find_str("hello", "z"), None);
    assert!(contains_str("crepus.toml", ".toml"));
    assert!(lex_less("abc", "abd"));
    assert!(lex_less("ab", "abc"));
    assert!(!lex_less("b", "abc"));
    assert!(!lex_less("same", "same"));
    assert_eq!(to_ascii_lowercase("MiXeD-Ä"), "mixed-Ä");
    assert_eq!(to_ascii_lowercase(&to_ascii_lowercase("CAMERA")), to_ascii_lowercase("CAMERA"));
    assert_eq!(trim_string("  \t padded \n"), "padded");
}
