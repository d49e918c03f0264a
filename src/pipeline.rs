//! One indexing run over a tree: which entries are candidates, what becomes of
//! each candidate file, and how the run ends. The traversal and the worker pool
//! hand each entry to these functions; the run commits once, after all of them.
use vstd::prelude::*;
use crate::extract::{Grammar, extension_of, extract, grammar_for_path, grammar_of, parses_cleanly};
use crate::filter::{hidden, is_hidden};
use crate::writer::{IndexError, IndexerWriter};

verus! {

/// The text that is indexed for a file's bytes: `String::from_utf8_lossy`, with
/// each invalid sequence replaced.
pub uninterp spec fn lossy_text(bytes: Seq<u8>) -> Seq<char>;

/// Relies on `String::from_utf8_lossy`: the text of the bytes, which depends on
/// the bytes alone.
#[verifier::external_body]
fn text_of(bytes: &Vec<u8>) -> (r: String)
    ensures
        r@ == lossy_text(bytes@),
{
    String::from_utf8_lossy(bytes).into_owned()
}

/// The grammar for the file at a path, by its extension.
pub open spec fn grammar_at(path: Seq<char>) -> Option<Grammar> {
    match extension_of(path) {
        Some(e) => grammar_of(e),
        None => None,
    }
}

/// The grammar a traversal entry is checked against: only a file that is not
/// hidden and whose extension names a grammar has one.
pub open spec fn candidate(path: Seq<char>, name: Seq<char>, is_file: bool) -> Option<Grammar> {
    if is_file && !hidden(name) {
        grammar_at(path)
    } else {
        None
    }
}

/// Unsupported extensions: a file whose extension names no grammar, or that has
/// no extension, is never a candidate, so it is never parsed and never indexed.
pub proof fn lemma_unsupported_never_candidate(path: Seq<char>, name: Seq<char>, is_file: bool)
    requires
        match extension_of(path) {
            Some(e) => grammar_of(e) is None,
            None => true,
        },
    ensures
        candidate(path, name, is_file) is None,
{
}

/// Hidden files: a file whose name starts with `.` is never a candidate,
/// whatever its extension and whatever the ignore patterns say.
pub proof fn lemma_hidden_never_candidate(path: Seq<char>, name: Seq<char>, is_file: bool)
    requires
        hidden(name),
    ensures
        candidate(path, name, is_file) is None,
{
}

/// What became of one candidate file.
#[derive(PartialEq, Eq, Debug)]
pub enum FileOutcome {
    /// Its batch went to the writer.
    Indexed,
    /// Its grammar did not accept it; it is skipped.
    ParseFailed,
    /// The writer refused its batch; it is skipped.
    IndexFailed(IndexError),
}

/// What ends a run early.
#[derive(PartialEq, Eq, Debug)]
pub enum PipelineError {
    /// The root cannot be used, or the ignore file cannot be read.
    Config(String),
    /// The index cannot be opened, or the commit failed.
    Index(IndexError),
}

/// A run over the tree at `path`.
pub struct IndexerRunner {
    path: String,
}

impl IndexerRunner {
    pub closed spec fn path_view(&self) -> Seq<char> {
        self.path@
    }

    pub fn new(path: String) -> (r: Self)
        ensures
            r.path_view() == path@,
    {
        IndexerRunner { path }
    }

    /// The root that the run indexes.
    pub fn path(&self) -> (r: &str)
        ensures
            r@ == self.path_view(),
    {
        self.path.as_str()
    }

    /// Whether a traversal entry is a candidate, and with which grammar.
    pub fn candidate_grammar(path: &str, name: &str, is_file: bool) -> (r: Option<Grammar>)
        ensures
            r == candidate(path@, name@, is_file),
    {
        if is_file && !is_hidden(name) {
            grammar_for_path(path)
        } else {
            None
        }
    }

    /// Indexes one candidate file, given its bytes and what the writer did with
    /// its batch: a file that its grammar does not accept is skipped and never
    /// reaches the writer.
    pub fn index_file(
        writer: &IndexerWriter,
        path: &str,
        grammar: Grammar,
        source: Vec<u8>,
    ) -> (r: FileOutcome)
        ensures
            (r is ParseFailed) == !parses_cleanly(grammar, source@),
    {
        match extract(grammar, source) {
            None => FileOutcome::ParseFailed,
            Some(bytes) => {
                let text = text_of(&bytes);
                match writer.index_doc(path, text.as_str()) {
                    Ok(()) => FileOutcome::Indexed,
                    Err(e) => FileOutcome::IndexFailed(e),
                }
            },
        }
    }

    /// Ends a run whose workers have all returned: the single commit, whose
    /// failure fails the run.
    pub fn finish(writer: &IndexerWriter) -> (r: Result<(), PipelineError>)
        ensures
            r matches Err(e) ==> (e matches PipelineError::Index(i) && (i is LockFailed || i is CommitFailed)),
    {
        match writer.commit() {
            Ok(()) => Ok(()),
            Err(e) => Err(PipelineError::Index(e)),
        }
    }
}

} // verus!
