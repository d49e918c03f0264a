use code_indexer::tokens::{camel_case, sanitize_identifier, sanitize_string};

#[test]
fn sanitize_string_plain_escapes() {
    assert_eq!(sanitize_string("a\"b", false), "a\\\"b");
    assert_eq!(sanitize_string("\\", false), "\\\\");
    assert_eq!(sanitize_string("\t\n\r", false), "\\t\\n\\r");
    assert_eq!(sanitize_string("plain", false), "plain");
}

#[test]
fn sanitize_string_double_escapes() {
    assert_eq!(sanitize_string("\"", true), "\\\\\\\"");
    assert_eq!(sanitize_string("\\", true), "\\\\\\\\");
    assert_eq!(sanitize_string("\n", true), "\\\\n");
    assert_eq!(sanitize_string("", true), "");
}

#[test]
fn camel_case_joins_words() {
    assert_eq!(camel_case("foo_bar".to_string()), "FooBar");
    assert_eq!(camel_case("_private__name".to_string()), "PrivateName");
    assert_eq!(camel_case("TSX".to_string()), "TSX");
    assert_eq!(camel_case("".to_string()), "");
}

#[test]
fn camel_case_uses_unicode_upper_case() {
    assert_eq!(camel_case("ß_x".to_string()), "SSX");
}

#[test]
fn sanitize_identifier_fixed_names() {
    assert_eq!(sanitize_identifier("\u{ef}\u{bb}\u{bf}"), "BOM");
    assert_eq!(sanitize_identifier("_"), "UNDERSCORE");
    assert_eq!(sanitize_identifier("self"), "Zelf");
    assert_eq!(sanitize_identifier("Self"), "SELF");
}

#[test]
fn sanitize_identifier_punctuation() {
    assert_eq!(sanitize_identifier("=>"), "EQ_GT");
    assert_eq!(sanitize_identifier("a.b"), "a_DOTb");
    assert_eq!(sanitize_identifier("_("), "_LPAREN");
    assert_eq!(sanitize_identifier("x\u{e9}y"), "xy");
    assert_eq!(sanitize_identifier("identifier"), "identifier");
}
