use code_indexer::filter::{admit_entry, is_hidden, IgnoreFilter};
use ignore::gitignore::GitignoreBuilder;

fn filter_for(root: &str, lines: &[&str]) -> IgnoreFilter {
    let mut builder = GitignoreBuilder::new(root);
    for line in lines {
        builder.add_line(None, line).unwrap();
    }
    IgnoreFilter::new(root.to_string(), builder.build().unwrap())
}

#[test]
fn hidden_names() {
    assert!(is_hidden(".env.ts"));
    assert!(is_hidden(".git"));
    assert!(!is_hidden("a.ts"));
    assert!(!is_hidden(""));
}

#[test]
fn admission_rule() {
    assert!(admit_entry(true, true, ".hidden"));
    assert!(!admit_entry(false, true, "a.ts"));
    assert!(!admit_entry(false, false, ".env.ts"));
    assert!(admit_entry(false, false, "a.ts"));
}

#[test]
fn root_always_processed() {
    let f = filter_for("/proj", &["*"]);
    assert!(f.should_process("/proj", true, "proj"));
}

#[test]
fn excluded_directory_is_pruned() {
    let f = filter_for("/proj", &["node_modules/"]);
    assert!(!f.should_process("/proj/node_modules", true, "node_modules"));
    assert!(f.should_process("/proj/src", true, "src"));
    assert!(f.should_process("/proj/a.ts", false, "a.ts"));
}

#[test]
fn hidden_file_excluded_without_patterns() {
    let f = filter_for("/proj", &[]);
    assert!(!f.should_process("/proj/.env.ts", false, ".env.ts"));
    assert!(!f.should_process("/proj/.cache", true, ".cache"));
}
