use vihaco::lexical::{
    bare_token, decimal_i32, decimal_i64, decimal_u32, decimal_u64, delimiter, ident,
    is_float_literal, parse_bare_token, parse_bool, parse_i32, parse_i64, parse_ident,
    parse_quoted_string, parse_string, parse_u32, parse_u64, parse_usize, white_space,
};

/// Parses a float the way a caller does: the library checks the literal's
/// form, and the standard library converts it.
fn parse_f64(text: &str) -> f64 {
    assert!(is_float_literal(text), "not a float literal: {text:?}");
    text.parse().unwrap()
}

fn parse_f32(text: &str) -> f32 {
    assert!(is_float_literal(text), "not a float literal: {text:?}");
    text.parse().unwrap()
}

#[test]
fn i64_basic() {
    assert_eq!(parse_i64("42").unwrap(), 42);
}

#[test]
fn i32_basic() {
    assert_eq!(parse_i32("7").unwrap(), 7);
}

#[test]
fn u64_basic() {
    assert_eq!(parse_u64("100").unwrap(), 100);
}

#[test]
fn u32_basic() {
    assert_eq!(parse_u32("0").unwrap(), 0);
}

#[test]
fn usize_basic() {
    assert_eq!(parse_usize("9").unwrap(), 9);
}

#[test]
fn f64_int() {
    assert_eq!(parse_f64("3"), 3.0);
}

#[test]
#[allow(clippy::approx_constant)]
fn f64_float() {
    assert_eq!(parse_f64("3.14"), 3.14);
}

#[test]
fn f32_float() {
    assert!((parse_f32("1.5") - 1.5f32).abs() < 1e-6);
}

#[test]
fn i64_negative() {
    assert_eq!(parse_i64("-42").unwrap(), -42);
}

#[test]
fn i32_negative() {
    assert_eq!(parse_i32("-7").unwrap(), -7);
}

#[test]
fn f64_negative() {
    assert_eq!(parse_f64("-0.5"), -0.5);
}

#[test]
fn f64_negative_scientific() {
    assert_eq!(parse_f64("-1.0e-3"), -1.0e-3);
}

#[test]
fn u64_rejects_negative() {
    assert!(parse_u64("-1").is_none());
}

#[test]
fn bool_true() {
    assert!(parse_bool("true").unwrap());
}

#[test]
fn bool_false() {
    assert!(!parse_bool("false").unwrap());
}

#[test]
fn string_word() {
    assert_eq!(parse_string("hello").unwrap(), "hello");
}

#[test]
fn string_stops_at_ws() {
    assert!(parse_string("hello world").is_none());
}

#[test]
fn ident_operand_with_colons() {
    assert_eq!(ident("AOD0:T1:A").unwrap(), "AOD0:T1:A");
}

#[test]
fn ident_allows_dots() {
    assert_eq!(ident("a.b.c").unwrap(), "a.b.c");
}

#[test]
fn ident_digi_target() {
    assert_eq!(ident("DIGI:0").unwrap(), "DIGI:0");
}

#[test]
fn ident_rejects_empty() {
    assert!(ident("").is_none());
}

#[test]
fn ident_rejects_leading_ws() {
    assert!(ident("  hello").is_none());
}

#[test]
fn integer_literals_reject_leading_zeros_signs_and_garbage() {
    assert_eq!(parse_u64("0"), Some(0));
    assert!(parse_u64("007").is_none());
    assert!(parse_u64("+5").is_none());
    assert!(parse_u64("").is_none());
    assert!(parse_u64("12a").is_none());
    assert!(parse_i64("-").is_none());
    assert!(parse_i64("--1").is_none());
    assert_eq!(parse_i64("-0"), Some(0));
    assert_eq!(parse_u64("18446744073709551615"), Some(u64::MAX));
    assert_eq!(parse_i64("-9223372036854775808"), Some(i64::MIN));
    assert_eq!(parse_i64("9223372036854775807"), Some(i64::MAX));
    assert_eq!(parse_i32("-2147483648"), Some(i32::MIN));
    assert_eq!(parse_u32("4294967295"), Some(u32::MAX));
    assert_eq!(parse_usize("12345"), Some(12_345));
}

#[test]
fn float_literal_forms() {
    for ok in ["0", "3", "3.14", "-0.5", "1e5", "1E+5", "2.5e-3", "-1.0e-3", "10.25"] {
        assert!(is_float_literal(ok), "{ok}");
    }
    for bad in ["", "-", ".5", "5.", "01.5", "1e", "1e+", "1.2.3", "+1", "1 ", "e5", "0x1"] {
        assert!(!is_float_literal(bad), "{bad}");
    }
}

#[test]
fn booleans_are_exact_words() {
    assert_eq!(parse_bool("True"), None);
    assert_eq!(parse_bool("true "), None);
    assert_eq!(parse_bool(""), None);
}

#[test]
fn tokens_stop_at_delimiters() {
    for c in [' ', '\t', '\n', ',', ';', '(', ')', '{', '}', '[', ']', '"', '\'', '`', '\u{a0}'] {
        assert!(delimiter(c), "{c:?}");
    }
    for c in ['a', '.', ':', '@', '-', '_', '0'] {
        assert!(!delimiter(c), "{c:?}");
    }
    assert!(white_space('\u{3000}'));
    assert!(!white_space('x'));
    assert!(ident("foo,").is_none());
    assert!(ident("foo(").is_none());
    assert!(ident("device{").is_none());
    assert_eq!(ident("foo").unwrap(), "foo");
    assert!(ident("@main").is_none());
    assert_eq!(bare_token("@main").unwrap(), "@main");
    assert_eq!(parse_ident("x.y").unwrap().as_str(), "x.y");
    assert_eq!(parse_bare_token("3.14").unwrap().as_str(), "3.14");
}

#[test]
fn quoted_strings_decode_escapes() {
    assert_eq!(parse_quoted_string("\"hello world\"").unwrap().as_str(), "hello world");
    assert_eq!(parse_quoted_string("\"a\\nb\\t\\\"c\\\\\\0\"").unwrap().as_str(), "a\nb\t\"c\\\0");
    assert_eq!(parse_quoted_string("\"\"").unwrap().as_str(), "");
    assert!(parse_quoted_string("\"unterminated").is_none());
    assert!(parse_quoted_string("\"bad \\q escape\"").is_none());
    assert!(parse_quoted_string("\"a\"b\"").is_none());
    assert!(parse_quoted_string("\"\\\"").is_none());
    assert!(parse_quoted_string("plain").is_none());
}

#[test]
fn decimal_parsing_follows_rust_integer_syntax() {
    assert_eq!(decimal_u32("+7"), Some(7));
    assert_eq!(decimal_u32("007"), Some(7));
    assert_eq!(decimal_u32("-0"), None);
    assert_eq!(decimal_u32("4294967296"), None);
    assert_eq!(decimal_u64("18446744073709551615"), Some(u64::MAX));
    assert_eq!(decimal_u64("18446744073709551616"), None);
    assert_eq!(decimal_i32("-2147483648"), Some(i32::MIN));
    assert_eq!(decimal_i32("2147483648"), None);
    assert_eq!(decimal_i64("-9223372036854775808"), Some(i64::MIN));
    assert_eq!(decimal_i64("+"), None);
    assert_eq!(decimal_i64(""), None);
    assert_eq!(decimal_i64("1_000"), None);
}

#[test]
fn ident_stops_at_comma() {
    assert_eq!(ident("foo").unwrap(), "foo");
    assert!(delimiter(','));
    assert!(ident("foo,").is_none());
}

#[test]
fn ident_stops_at_open_paren() {
    assert_eq!(ident("foo").unwrap(), "foo");
    assert!(delimiter('('));
    assert!(ident("foo(").is_none());
}

#[test]
fn ident_stops_at_brace() {
    assert_eq!(ident("device").unwrap(), "device");
    assert!(delimiter('{'));
    assert!(ident("device{").is_none());
}
