use code_indexer::kinds::{decimal_text, get_tokens, token_entries};

#[test]
fn decimal_digits() {
    assert_eq!(decimal_text(0), "0");
    assert_eq!(decimal_text(7), "7");
    assert_eq!(decimal_text(10), "10");
    assert_eq!(decimal_text(40213), "40213");
}

#[test]
fn named_kinds_take_names_first() {
    let kinds = vec![
        ("_x".to_string(), false),
        ("x".to_string(), true),
        ("X".to_string(), true),
        ("=".to_string(), false),
        ("\"".to_string(), false),
    ];
    let entries = token_entries(&kinds);
    assert_eq!(
        entries,
        vec![
            ("X3".to_string(), true, "_x".to_string(), 0),
            ("X".to_string(), false, "x".to_string(), 1),
            ("X2".to_string(), true, "X".to_string(), 2),
            ("EQ".to_string(), false, "=".to_string(), 3),
            ("DQUOTE".to_string(), false, "\\\"".to_string(), 4),
        ]
    );
}

#[test]
fn empty_kind_list() {
    assert_eq!(token_entries(&Vec::new()), Vec::new());
}

#[test]
fn typescript_token_table() {
    let language: tree_sitter::Language = tree_sitter_typescript::LANGUAGE_TYPESCRIPT.into();
    let entries = get_tokens(&language).unwrap();
    assert_eq!(entries.len(), language.node_kind_count());
    for (i, e) in entries.iter().enumerate() {
        assert_eq!(e.3 as usize, i);
    }
    let names: Vec<&String> = entries.iter().map(|e| &e.0).collect();
    for (i, n) in names.iter().enumerate() {
        assert!(!names[..i].contains(n), "identifier {} repeats", n);
    }
}
