use code_indexer::extract::{extract, grammar_for_extension, grammar_for_path, keep_if_parsed, Grammar};

#[test]
fn extension_table() {
    assert_eq!(grammar_for_extension("ts"), Some(Grammar::Typescript));
    assert_eq!(grammar_for_extension("js"), Some(Grammar::Typescript));
    assert_eq!(grammar_for_extension("tsx"), Some(Grammar::Tsx));
    assert_eq!(grammar_for_extension("TS"), None);
    assert_eq!(grammar_for_extension("rs"), None);
}

#[test]
fn grammar_by_path() {
    assert_eq!(grammar_for_path("/p/a.ts"), Some(Grammar::Typescript));
    assert_eq!(grammar_for_path("/p/b.tsx"), Some(Grammar::Tsx));
    assert_eq!(grammar_for_path("/p/lib.min.js"), Some(Grammar::Typescript));
    assert_eq!(grammar_for_path("/p/readme.md"), None);
    assert_eq!(grammar_for_path("/p/Makefile"), None);
    assert_eq!(grammar_for_path("/p/.ts"), None);
}

#[test]
fn keep_only_parsed() {
    assert_eq!(keep_if_parsed(vec![1, 2], true), Some(vec![1, 2]));
    assert_eq!(keep_if_parsed(vec![1, 2], false), None);
}

#[test]
fn valid_source_is_kept_verbatim() {
    let src = b"const x = 1;".to_vec();
    assert_eq!(extract(Grammar::Typescript, src.clone()), Some(src));
    let tsx = b"const e = <div>hi</div>;".to_vec();
    assert_eq!(extract(Grammar::Tsx, tsx.clone()), Some(tsx));
}

#[test]
fn unparseable_source_is_dropped() {
    assert_eq!(extract(Grammar::Tsx, b"}}} const = = ;; <<<".to_vec()), None);
    assert_eq!(extract(Grammar::Typescript, b"let = ;".to_vec()), None);
}
