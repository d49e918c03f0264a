//! The parse gate in front of indexing: a file is indexed only when its
//! extension names a grammar and that grammar parses it without error.
use vstd::prelude::*;

verus! {

/// The grammars that files are checked against.
#[derive(PartialEq, Eq, Structural, Clone, Copy, Debug)]
pub enum Grammar {
    Typescript,
    Tsx,
}

/// The grammar for an extension: `ts` and `js` are read as TypeScript, `tsx` as
/// TSX, and no other extension has one.
pub open spec fn grammar_of(ext: Seq<char>) -> Option<Grammar> {
    if ext == "ts"@ || ext == "js"@ {
        Some(Grammar::Typescript)
    } else if ext == "tsx"@ {
        Some(Grammar::Tsx)
    } else {
        None
    }
}

/// The extension of a path, as `std::path::Path::extension` gives it.
pub uninterp spec fn extension_of(path: Seq<char>) -> Option<Seq<char>>;

/// Whether the grammar's parser accepts the bytes with no error node in the tree.
pub uninterp spec fn parses_cleanly(grammar: Grammar, source: Seq<u8>) -> bool;

/// Relies on `std::path::Path::extension`: the part of the file name after its
/// last `.`, which depends on the path alone.
#[verifier::external_body]
fn path_extension(path: &str) -> (r: Option<String>)
    ensures
        match r {
            Some(e) => extension_of(path@) == Some(e@),
            None => extension_of(path@) is None,
        },
{
    std::path::Path::new(path).extension().map(|e| e.to_string_lossy().into_owned())
}

/// Relies on tree-sitter's `Parser::set_language` and `Parser::parse` and on
/// `Node::has_error` of the tree's root, with the grammars of
/// tree-sitter-typescript: whether a fresh parser for the grammar accepts the
/// bytes without error, which depends on the grammar and the bytes alone.
#[verifier::external_body]
fn parse_clean(grammar: Grammar, source: &Vec<u8>) -> (r: bool)
    ensures
        r == parses_cleanly(grammar, source@),
{
    let language: tree_sitter::Language = match grammar {
        Grammar::Typescript => tree_sitter_typescript::LANGUAGE_TYPESCRIPT.into(),
        Grammar::Tsx => tree_sitter_typescript::LANGUAGE_TSX.into(),
    };
    let mut parser = tree_sitter::Parser::new();
    match parser.set_language(&language) {
        Ok(()) => parser.parse(source, None).map_or(false, |t| !t.root_node().has_error()),
        Err(_) => false,
    }
}

/// The grammar for an extension.
pub fn grammar_for_extension(ext: &str) -> (r: Option<Grammar>)
    ensures
        r == grammar_of(ext@),
{
    if crate::tokens::same_text(ext, "ts") || crate::tokens::same_text(ext, "js") {
        Some(Grammar::Typescript)
    } else if crate::tokens::same_text(ext, "tsx") {
        Some(Grammar::Tsx)
    } else {
        None
    }
}

/// The grammar that the file at `path` is checked against, if any: a file
/// without one is skipped, and that is no error.
pub fn grammar_for_path(path: &str) -> (r: Option<Grammar>)
    ensures
        r == match extension_of(path@) {
            Some(e) => grammar_of(e),
            None => None,
        },
{
    match path_extension(path) {
        Some(e) => grammar_for_extension(e.as_str()),
        None => None,
    }
}

/// What is indexed of a file whose parse came out `clean`: its bytes as they
/// are when it did, nothing when it did not.
pub fn keep_if_parsed(source: Vec<u8>, clean: bool) -> (r: Option<Vec<u8>>)
    ensures
        r == (if clean { Some(source) } else { None::<Vec<u8>> }),
{
    if clean {
        Some(source)
    } else {
        None
    }
}

/// Checks the file's bytes against its grammar: the bytes themselves are what is
/// indexed, and only when the grammar accepts them.
pub fn extract(grammar: Grammar, source: Vec<u8>) -> (r: Option<Vec<u8>>)
    ensures
        r == (if parses_cleanly(grammar, source@) { Some(source) } else { None::<Vec<u8>> }),
{
    let clean = parse_clean(grammar, &source);
    keep_if_parsed(source, clean)
}

} // verus!
