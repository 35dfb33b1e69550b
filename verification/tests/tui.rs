use crepuscularity_cli::tui::{
    classify_value, parse_context_line, parse_context_lines, strip_one_outer_quote_pair,
    ContextValue,
};

#[test]
fn strips_single_outer_double_quotes() {
    assert_eq!(strip_one_outer_quote_pair("\"hello\""), "hello");
}

#[test]
fn strips_single_outer_single_quotes() {
    assert_eq!(strip_one_outer_quote_pair("'hi'"), "hi");
}

#[test]
fn preserves_inner_quotes_when_repeated() {
    assert_eq!(
        strip_one_outer_quote_pair("\"\"keep\"\""),
        "\"keep\"",
        "only the outermost pair should be stripped"
    );
}

#[test]
fn preserves_mismatched_quotes() {
    assert_eq!(strip_one_outer_quote_pair("\"hi'"), "\"hi'");
    assert_eq!(strip_one_outer_quote_pair("'hi\""), "'hi\"");
}

#[test]
fn preserves_unquoted_value() {
    assert_eq!(strip_one_outer_quote_pair("plain"), "plain");
}

#[test]
fn handles_short_inputs() {
    assert_eq!(strip_one_outer_quote_pair(""), "");
    assert_eq!(strip_one_outer_quote_pair("\""), "\"");
    assert_eq!(strip_one_outer_quote_pair("\"\""), "");
}

#[test]
fn strips_quotes_around_non_ascii_text() {
    assert_eq!(strip_one_outer_quote_pair("\"héllo\""), "héllo");
}

#[test]
fn classifies_context_values() {
    assert_eq!(classify_value("true"), ContextValue::Bool(true));
    assert_eq!(classify_value("false"), ContextValue::Bool(false));
    assert_eq!(classify_value("-42"), ContextValue::Int(-42));
    assert_eq!(classify_value("+7"), ContextValue::Int(7));
    assert_eq!(
        classify_value("9223372036854775808"),
        ContextValue::Text("9223372036854775808".to_string())
    );
    assert_eq!(classify_value("-9223372036854775808"), ContextValue::Int(i64::MIN));
    assert_eq!(classify_value("1.5"), ContextValue::Text("1.5".to_string()));
}

#[test]
fn context_lines_skip_comments_and_blank_lines() {
    assert_eq!(parse_context_line("  # comment = 1"), None);
    assert_eq!(parse_context_line("   "), None);
    assert_eq!(parse_context_line("no equals"), None);
    assert_eq!(
        parse_context_line("  title = \"My App\" "),
        Some(("title".to_string(), ContextValue::Text("\"My App\"".to_string())))
    );
    let entries = parse_context_lines("a = 1\n# skip\nb=true\n\nc = x=y\n");
    assert_eq!(
        entries,
        vec![
            ("a".to_string(), ContextValue::Int(1)),
            ("b".to_string(), ContextValue::Bool(true)),
            ("c".to_string(), ContextValue::Text("x=y".to_string())),
        ]
    );
}
