use qubit_infra_verify::json::{json_eq, JsonValue};
use qubit_infra_verify::text::{
    chars_of, decimal_text, lines_of, parse_u32_chars, same_text, string_of, text_contains, tokens_of,
    trim_chars, trim_end_chars,
};

fn text_lines(s: &str) -> Vec<String> {
    lines_of(&chars_of(s)).iter().map(string_of).collect()
}

#[test]
fn lines_follow_str_lines() {
    for sample in ["", "a", "a\n", "a\nb", "a\r\nb\r\n", "\n", "a\n\n", "x\ry", "a\r", "\r\n\r\n"] {
        let expected: Vec<String> = sample.lines().map(str::to_owned).collect();
        assert_eq!(text_lines(sample), expected, "{sample:?}");
    }
}

#[test]
fn tokens_and_trim_follow_std() {
    for sample in ["", "  a b\tc\n", "\u{3000}x\u{85}y ", "one"] {
        let expected: Vec<String> = sample.split_whitespace().map(str::to_owned).collect();
        let got: Vec<String> = tokens_of(&chars_of(sample)).iter().map(string_of).collect();
        assert_eq!(got, expected);
        assert_eq!(string_of(&trim_chars(&chars_of(sample))), sample.trim());
        assert_eq!(string_of(&trim_end_chars(&chars_of(sample))), sample.trim_end());
    }
}

#[test]
fn numbers_parse_and_print_like_std() {
    for sample in ["0", "+1", "42", "4294967295", "4294967296", "", "+", "-1", "1a", "007"] {
        assert_eq!(parse_u32_chars(&chars_of(sample)), sample.parse::<u32>().ok(), "{sample:?}");
    }
    for n in [0u64, 7, 10, 99, 1234567890, u64::MAX] {
        assert_eq!(decimal_text(n), n.to_string());
    }
}

#[test]
fn substrings() {
    assert!(text_contains("cargo-fuzz = true", "cargo-fuzz"));
    assert!(text_contains("abc", ""));
    assert!(!text_contains("ab", "abc"));
    assert!(same_text("a", "a"));
    assert!(!same_text("a", "b"));
}

#[test]
fn json_values_compare_structurally() {
    let a = JsonValue::Object(vec![("k".to_owned(), JsonValue::Array(vec![JsonValue::Bool(true), JsonValue::Null]))]);
    let b = JsonValue::Object(vec![("k".to_owned(), JsonValue::Array(vec![JsonValue::Bool(true), JsonValue::Null]))]);
    let c = JsonValue::Object(vec![("k".to_owned(), JsonValue::Array(vec![JsonValue::Bool(false), JsonValue::Null]))]);
    assert!(json_eq(&a, &b));
    assert!(!json_eq(&a, &c));
    assert!(!json_eq(&JsonValue::Number("1".to_owned()), &JsonValue::Text("1".to_owned())));
    assert!(a.get("k").is_some());
    assert!(a.get("x").is_none());
    assert!(matches!(a.field("x"), JsonValue::Null));
    assert!(matches!(JsonValue::Null.field("k"), JsonValue::Null));
}
