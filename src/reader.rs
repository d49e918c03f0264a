//! Running one query against a committed index.
use vstd::prelude::*;
use tantivy::query::{QueryParser, QueryParserError};
use tantivy::{DocAddress, Index, IndexReader, Searcher, TantivyDocument, TantivyError};
use crate::error::{ResultExt, SearchError};
use crate::writer::{PATH_FIELD, SOURCE_FIELD, schema_field};

verus! {

#[verifier::external_type_specification]
#[verifier::external_body]
pub struct ExIndexReader(IndexReader);

#[verifier::external_type_specification]
#[verifier::external_body]
pub struct ExSearcher(Searcher);

#[verifier::external_type_specification]
#[verifier::external_body]
pub struct ExQueryParser(QueryParser);

#[verifier::external_type_specification]
#[verifier::external_body]
pub struct ExDocAddress(DocAddress);

/// The most results a query returns.
pub const RESULT_LIMIT: usize = 10;

/// Relies on tantivy's `IndexReaderBuilder` with `ReloadPolicy::OnCommitWithDelay`: a
/// reader that picks up each new commit.
#[verifier::external_body]
fn open_reader(index: &Index) -> Result<IndexReader, TantivyError> {
    index.reader_builder().reload_policy(tantivy::ReloadPolicy::OnCommitWithDelay).try_into()
}

/// Relies on tantivy's `IndexReader::searcher`: a searcher on the reader's
/// current commit.
#[verifier::external_body]
fn searcher_of(reader: &IndexReader) -> Searcher {
    reader.searcher()
}

/// Relies on tantivy's `QueryParser::for_index`: a parser whose terms without
/// a field are looked up in the two given fields.
#[verifier::external_body]
fn query_parser(index: &Index, path_field: tantivy::schema::Field, source_field: tantivy::schema::Field) -> QueryParser {
    QueryParser::for_index(index, vec![path_field, source_field])
}

/// Relies on tantivy's `QueryParser::parse_query`, `Searcher::search` and
/// `TopDocs::with_limit(..).order_by_score()`: the addresses of at most `limit`
/// best-scoring documents, best first; a query that does not parse is the outer
/// error, a failed search the inner one.
#[verifier::external_body]
fn top_docs(
    searcher: &Searcher,
    parser: &QueryParser,
    q: &str,
    limit: usize,
) -> (r: Result<Result<Vec<DocAddress>, TantivyError>, QueryParserError>)
    requires
        limit > 0,
    ensures
        r matches Ok(Ok(v)) ==> v.len() <= limit,
{
    let query = parser.parse_query(q)?;
    let collector = tantivy::collector::TopDocs::with_limit(limit).order_by_score();
    Ok(searcher.search(&query, &collector).map(|hits| hits.into_iter().map(|h| h.1).collect()))
}

/// Relies on tantivy's `Searcher::doc` and `Document::to_json`: the stored
/// fields of the document at the address, as JSON.
#[verifier::external_body]
fn stored_json(searcher: &Searcher, address: DocAddress) -> Result<String, TantivyError> {
    let doc: TantivyDocument = searcher.doc(address)?;
    Ok(tantivy::Document::to_json(&doc, searcher.schema()))
}

/// Runs the query `q` against the path and source fields of a committed index:
/// the stored fields of at most `RESULT_LIMIT` best-ranked documents, best
/// first, as JSON records.
pub fn search(index: &Index, q: &str) -> (r: Result<Vec<String>, SearchError>)
    ensures
        r matches Ok(hits) ==> hits.len() <= RESULT_LIMIT,
{
    let reader = open_reader(index).map_error()?;
    let searcher = searcher_of(&reader);
    let path_field = match schema_field(index, PATH_FIELD) {
        Some(f) => f,
        None => return Err(SearchError::MissingField(String::from_str(PATH_FIELD))),
    };
    let source_field = match schema_field(index, SOURCE_FIELD) {
        Some(f) => f,
        None => return Err(SearchError::MissingField(String::from_str(SOURCE_FIELD))),
    };
    let parser = query_parser(index, path_field, source_field);
    let addresses = top_docs(&searcher, &parser, q, RESULT_LIMIT).map_error()?.map_error()?;
    let mut hits: Vec<String> = Vec::new();
    let mut i: usize = 0;
    while i < addresses.len()
        invariant
            i <= addresses.len(),
            addresses.len() <= RESULT_LIMIT,
            hits.len() == i,
        decreases addresses.len() - i,
    {
        let json = stored_json(&searcher, addresses[i]).map_error()?;
        hits.push(json);
        i = i + 1;
    }
    Ok(hits)
}

} // verus!
