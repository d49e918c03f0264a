//! A full-text index over a source tree.
//!
//! - `filter`: which entries the traversal admits (ignore patterns, hidden names).
//! - `extract`: the grammar for a file and the parse gate in front of indexing.
//! - `model`: what the index holds as batches are submitted and committed, with
//!   the laws of re-indexing, replacement and the commit barrier.
//! - `writer`: the writer shared by a run's workers, under a reader/writer lock.
//! - `pipeline`: what becomes of each entry and file of a run, and how it ends.
//! - `error`, `reader`: one query against a committed index.
//! - `tokens`, `kinds`: the identifiers that generated code gives a grammar's
//!   node kinds.
pub mod tokens;
pub mod filter;
pub mod extract;
pub mod model;
pub mod writer;
pub mod pipeline;
pub mod error;
pub mod reader;
pub mod kinds;
