use code_indexer::error::{ResultExt, SearchError};
use code_indexer::extract::Grammar;
use code_indexer::filter::IgnoreFilter;
use code_indexer::pipeline::{FileOutcome, IndexerRunner};
use code_indexer::reader::{search, RESULT_LIMIT};
use code_indexer::writer::{IndexError, IndexerWriter, PATH_FIELD, SOURCE_FIELD};
use ignore::gitignore::GitignoreBuilder;
use tantivy::schema::{Schema, STORED, STRING, TEXT};
use tantivy::{Index, TantivyError};

fn new_index() -> Index {
    let mut builder = Schema::builder();
    builder.add_text_field(SOURCE_FIELD, TEXT | STORED);
    builder.add_text_field(PATH_FIELD, STRING | STORED);
    Index::create_in_ram(builder.build())
}

fn hits_for(index: &Index, q: &str) -> Vec<String> {
    search(index, q).unwrap()
}

#[test]
fn reindex_same_file_keeps_one_document() {
    let index = new_index();
    let writer = IndexerWriter::new(&index).unwrap();
    writer.index_doc("/p/a.ts", "const unique = 1;").unwrap();
    writer.commit().unwrap();
    writer.index_doc("/p/a.ts", "const unique = 1;").unwrap();
    writer.commit().unwrap();
    let hits = hits_for(&index, "unique");
    assert_eq!(hits.len(), 1);
    assert!(hits[0].contains("/p/a.ts"));
    assert!(hits[0].contains("const unique = 1;"));
}

#[test]
fn update_replaces_content() {
    let index = new_index();
    let writer = IndexerWriter::new(&index).unwrap();
    writer.index_doc("/p/a.ts", "alpha").unwrap();
    writer.commit().unwrap();
    writer.index_doc("/p/a.ts", "beta").unwrap();
    writer.commit().unwrap();
    assert_eq!(hits_for(&index, "alpha").len(), 0);
    let hits = hits_for(&index, "beta");
    assert_eq!(hits.len(), 1);
    assert!(hits[0].contains("/p/a.ts"));
}

#[test]
fn nothing_visible_before_commit() {
    let index = new_index();
    let writer = IndexerWriter::new(&index).unwrap();
    writer.index_doc("/p/a.ts", "pending").unwrap();
    writer.index_doc("/p/b.ts", "pending too").unwrap();
    assert_eq!(hits_for(&index, "pending").len(), 0);
    assert_eq!(IndexerRunner::finish(&writer), Ok(()));
    assert_eq!(hits_for(&index, "pending").len(), 2);
}

#[test]
fn results_are_capped() {
    let index = new_index();
    let writer = IndexerWriter::new(&index).unwrap();
    for i in 0..15 {
        writer.index_doc(&format!("/p/f{}.ts", i), "common").unwrap();
    }
    writer.commit().unwrap();
    assert_eq!(hits_for(&index, "common").len(), RESULT_LIMIT);
}

#[test]
fn second_writer_cannot_open() {
    let index = new_index();
    let _first = IndexerWriter::new(&index).unwrap();
    assert!(matches!(IndexerWriter::new(&index), Err(IndexError::OpenFailed(_))));
}

#[test]
fn schema_without_fields_is_refused() {
    let mut builder = Schema::builder();
    builder.add_text_field("other", TEXT);
    let index = Index::create_in_ram(builder.build());
    assert!(matches!(IndexerWriter::new(&index), Err(IndexError::MissingField(_))));
    assert!(matches!(search(&index, "x"), Err(SearchError::MissingField(_))));
}

#[test]
fn malformed_query_is_an_error() {
    let index = new_index();
    assert!(matches!(search(&index, "nosuchfield:abc"), Err(SearchError::Query(_))));
}

#[test]
fn engine_error_is_mapped() {
    let ok: Result<u8, TantivyError> = Ok(3);
    assert_eq!(ok.map_error(), Ok(3));
    let err: Result<u8, TantivyError> = Err(TantivyError::InvalidArgument("bad".to_string()));
    assert!(matches!(err.map_error(), Err(SearchError::Engine(_))));
}

#[test]
fn parse_failure_is_isolated() {
    let index = new_index();
    let writer = IndexerWriter::new(&index).unwrap();
    let bad = IndexerRunner::index_file(&writer, "/p/b.tsx", Grammar::Tsx, b"}}} = = ;; <<<".to_vec());
    assert_eq!(bad, FileOutcome::ParseFailed);
    let good = IndexerRunner::index_file(&writer, "/p/a.ts", Grammar::Typescript, b"const sibling = 1;".to_vec());
    assert_eq!(good, FileOutcome::Indexed);
    IndexerRunner::finish(&writer).unwrap();
    assert_eq!(hits_for(&index, "sibling").len(), 1);
}

#[test]
fn unsupported_extension_is_not_a_candidate() {
    assert_eq!(IndexerRunner::candidate_grammar("/p/notes.md", "notes.md", true), None);
    assert_eq!(IndexerRunner::candidate_grammar("/p/a.ts", "a.ts", true), Some(Grammar::Typescript));
    assert_eq!(IndexerRunner::candidate_grammar("/p/dir.ts", "dir.ts", false), None);
    assert_eq!(IndexerRunner::candidate_grammar("/p/.env.ts", ".env.ts", true), None);
}

#[test]
fn runner_keeps_its_root() {
    let runner = IndexerRunner::new("/p".to_string());
    assert_eq!(runner.path(), "/p");
}

// A small tree: `a.ts` valid, `b.tsx` unparseable, `node_modules/c.ts` under an
// ignored directory, `.env.ts` hidden.
#[test]
fn scenario_mixed_tree() {
    let mut gi = GitignoreBuilder::new("/p");
    gi.add_line(None, "node_modules/").unwrap();
    let filter = IgnoreFilter::new("/p".to_string(), gi.build().unwrap());
    let index = new_index();
    let writer = IndexerWriter::new(&index).unwrap();
    // (path, name, is_dir, content), parents before children
    let entries: Vec<(&str, &str, bool, &str)> = vec![
        ("/p", "p", true, ""),
        ("/p/a.ts", "a.ts", false, "const x = 1;"),
        ("/p/b.tsx", "b.tsx", false, "b }}} = = ;; <<<"),
        ("/p/node_modules", "node_modules", true, ""),
        ("/p/node_modules/c.ts", "c.ts", false, "const c = 1;"),
        ("/p/.env.ts", ".env.ts", false, "const env = 1;"),
    ];
    let mut pruned: Vec<String> = Vec::new();
    for (path, name, is_dir, content) in entries {
        if pruned.iter().any(|d| path.starts_with(&format!("{}/", d))) {
            continue;
        }
        if !filter.should_process(path, is_dir, name) {
            pruned.push(path.to_string());
            continue;
        }
        if let Some(g) = IndexerRunner::candidate_grammar(path, name, !is_dir) {
            let _ = IndexerRunner::index_file(&writer, path, g, content.as_bytes().to_vec());
        }
    }
    assert_eq!(IndexerRunner::finish(&writer), Ok(()));
    let hits = hits_for(&index, "x");
    assert_eq!(hits.len(), 1);
    assert!(hits[0].contains("/p/a.ts"));
    assert_eq!(hits_for(&index, "b").len(), 0);
    assert_eq!(hits_for(&index, "c").len(), 0);
    assert_eq!(hits_for(&index, "env").len(), 0);
}
