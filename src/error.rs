//! Turning the engine's errors into the library's.
use vstd::prelude::*;
use tantivy::query::QueryParserError;
use tantivy::TantivyError;

verus! {

#[verifier::external_type_specification]
#[verifier::external_body]
pub struct ExTantivyError(TantivyError);

#[verifier::external_type_specification]
#[verifier::external_body]
pub struct ExQueryParserError(QueryParserError);

/// What can go wrong on a search: the engine fails, the query does not parse,
/// or the index lacks one of the fields that queries run against.
#[derive(PartialEq, Eq, Debug)]
pub enum SearchError {
    Engine(String),
    Query(String),
    MissingField(String),
}

/// Relies on the `Debug` form of tantivy's `TantivyError`, for the message.
#[verifier::external_body]
fn describe_engine_error(e: &TantivyError) -> String {
    format!("Tantivy Error: {:?}", e)
}

/// Relies on the `Debug` form of tantivy's `QueryParserError`, for the message.
#[verifier::external_body]
fn describe_query_error(e: &QueryParserError) -> String {
    format!("Query Parser Error: {:?}", e)
}

/// A result of the engine, with its error turned into a `SearchError`.
pub trait ResultExt<F>: Sized {
    /// The value, on success.
    spec fn value(&self) -> Option<F>;

    /// Whether an error of this result is one of the query's.
    spec fn query_fault(&self) -> bool;

    fn map_error(self) -> (r: Result<F, SearchError>)
        ensures
            self.value() matches Some(v) ==> r == Ok::<F, SearchError>(v),
            self.value() is None ==> (r matches Err(e) && (e is Query) == self.query_fault() && !(e is MissingField)),
    ;
}

impl<F> ResultExt<F> for Result<F, TantivyError> {
    open spec fn value(&self) -> Option<F> {
        match self {
            Ok(v) => Some(*v),
            Err(_) => None,
        }
    }

    open spec fn query_fault(&self) -> bool {
        false
    }

    fn map_error(self) -> (r: Result<F, SearchError>) {
        match self {
            Ok(v) => Ok(v),
            Err(e) => Err(SearchError::Engine(describe_engine_error(&e))),
        }
    }
}

impl<F> ResultExt<F> for Result<F, QueryParserError> {
    open spec fn value(&self) -> Option<F> {
        match self {
            Ok(v) => Some(*v),
            Err(_) => None,
        }
    }

    open spec fn query_fault(&self) -> bool {
        true
    }

    fn map_error(self) -> (r: Result<F, SearchError>) {
        match self {
            Ok(v) => Ok(v),
            Err(e) => Err(SearchError::Query(describe_query_error(&e))),
        }
    }
}

} // verus!
