//! The index writer shared by the workers of a run. Submitting a batch takes
//! the writer's lock in shared mode, so that many workers submit at once;
//! committing takes it in exclusive mode, so that it waits for every submission
//! in flight.
use vstd::prelude::*;
use std::sync::RwLock;
use tantivy::indexer::UserOperation;
use tantivy::schema::Field;
use tantivy::{Index, IndexWriter, TantivyDocument};
use crate::model::{Op, upsert_ops};

verus! {

#[verifier::external_type_specification]
#[verifier::external_body]
pub struct ExField(Field);

#[verifier::external_type_specification]
#[verifier::external_body]
pub struct ExIndex(Index);

/// The name of the field that holds a document's path, its unique key.
pub const PATH_FIELD: &'static str = "path";

/// The name of the field that holds a document's source text.
pub const SOURCE_FIELD: &'static str = "source";

/// The memory that the writer may use for the documents it has not flushed.
pub const WRITER_MEMORY_BUDGET: usize = 50_000_000;

/// What can go wrong on the writer: its lock is poisoned, the engine refuses a
/// batch or a commit, the index lacks one of the two fields, or the writer
/// cannot be opened.
#[derive(PartialEq, Eq, Debug)]
pub enum IndexError {
    LockFailed,
    Rejected(String),
    CommitFailed(String),
    MissingField(String),
    OpenFailed(String),
}

/// A batch of engine operations, built one at a time and submitted whole.
#[verifier::external_body]
pub struct EngineBatch {
    ops: Vec<UserOperation<TantivyDocument>>,
}

/// The operations that a batch holds, in order.
pub uninterp spec fn batch_ops(b: EngineBatch) -> Seq<Op>;

impl EngineBatch {
    /// Relies on `Vec::new`: a batch with no operation.
    #[verifier::external_body]
    fn new() -> (r: EngineBatch)
        ensures
            batch_ops(r) == Seq::<Op>::empty(),
    {
        EngineBatch { ops: Vec::new() }
    }

    /// Relies on tantivy's `Term::from_field_text` and `UserOperation::Delete`:
    /// appends the delete of every document whose path field holds exactly
    /// `path`.
    #[verifier::external_body]
    fn push_delete(&mut self, path_field: Field, path: &str)
        ensures
            batch_ops(*final(self)) == batch_ops(*old(self)).push(Op::Delete(path@)),
    {
        self.ops.push(UserOperation::Delete(tantivy::Term::from_field_text(path_field, path)));
    }

    /// Relies on tantivy's `TantivyDocument::add_text` and `UserOperation::Add`:
    /// appends the add of a document with the path and the source text.
    #[verifier::external_body]
    fn push_add(&mut self, path_field: Field, source_field: Field, path: &str, source: &str)
        ensures
            batch_ops(*final(self)) == batch_ops(*old(self)).push(Op::Add(path@, source@)),
    {
        let mut doc = TantivyDocument::new();
        doc.add_text(source_field, source);
        doc.add_text(path_field, path);
        self.ops.push(UserOperation::Add(doc));
    }
}

/// The engine's writer behind a reader/writer lock.
#[verifier::external_body]
pub struct SharedWriter {
    lock: RwLock<IndexWriter<TantivyDocument>>,
}

/// Relies on tantivy's `Index::writer` and `RwLock::new`: a writer on the index
/// with the given memory budget, or the engine's error (the index is locked by
/// another writer, the budget is out of range).
#[verifier::external_body]
fn open_writer(index: &Index, budget: usize) -> Result<SharedWriter, String> {
    match index.writer(budget) {
        Ok(w) => Ok(SharedWriter { lock: RwLock::new(w) }),
        Err(e) => Err(format!("{:?}", e)),
    }
}

impl SharedWriter {
    /// Relies on `RwLock::read` and tantivy's `IndexWriter::run`: the batch is
    /// submitted under a shared lock, its operations with contiguous stamps. A
    /// poisoned lock, or a refusal by the engine, comes back as an error.
    #[verifier::external_body]
    fn run_shared(&self, batch: EngineBatch) -> (r: Result<(), IndexError>)
        ensures
            r matches Err(e) ==> (e is LockFailed || e is Rejected),
    {
        match self.lock.read() {
            Ok(w) => w.run(batch.ops).map(|_| ()).map_err(|e| IndexError::Rejected(format!("{:?}", e))),
            Err(_) => Err(IndexError::LockFailed),
        }
    }

    /// Relies on `RwLock::write` and tantivy's `IndexWriter::commit`: the commit
    /// runs under the exclusive lock, once every shared holder has let go. A
    /// poisoned lock, or a refusal by the engine, comes back as an error.
    #[verifier::external_body]
    fn commit_exclusive(&self) -> (r: Result<(), IndexError>)
        ensures
            r matches Err(e) ==> (e is LockFailed || e is CommitFailed),
    {
        match self.lock.write() {
            Ok(mut w) => w.commit().map(|_| ()).map_err(|e| IndexError::CommitFailed(format!("{:?}", e))),
            Err(_) => Err(IndexError::LockFailed),
        }
    }
}

/// Relies on tantivy's `Schema::get_field`: the field of that name in the
/// index's schema, if it has one.
#[verifier::external_body]
pub(crate) fn schema_field(index: &Index, name: &str) -> Option<Field> {
    index.schema().get_field(name).ok()
}

/// The writer of one run, with the two fields of its schema.
pub struct IndexerWriter {
    writer: SharedWriter,
    source_field: Field,
    path_field: Field,
}

impl IndexerWriter {
    /// Opens a writer on an index whose schema has the path and source fields.
    pub fn new(index: &Index) -> (r: Result<Self, IndexError>)
        ensures
            r matches Err(e) ==> (e is MissingField || e is OpenFailed),
    {
        let source_field = match schema_field(index, SOURCE_FIELD) {
            Some(f) => f,
            None => return Err(IndexError::MissingField(String::from_str(SOURCE_FIELD))),
        };
        let path_field = match schema_field(index, PATH_FIELD) {
            Some(f) => f,
            None => return Err(IndexError::MissingField(String::from_str(PATH_FIELD))),
        };
        match open_writer(index, WRITER_MEMORY_BUDGET) {
            Ok(writer) => Ok(IndexerWriter { writer, source_field, path_field }),
            Err(e) => Err(IndexError::OpenFailed(e)),
        }
    }

    /// The engine batch that indexes `source` under `path`: the delete of every
    /// document of the path, then the add of the new one.
    pub fn engine_batch(&self, path: &str, source: &str) -> (r: EngineBatch)
        ensures
            batch_ops(r) == upsert_ops(path@, source@),
    {
        let mut batch = EngineBatch::new();
        batch.push_delete(self.path_field, path);
        batch.push_add(self.path_field, self.source_field, path, source);
        assert(batch_ops(batch) =~= upsert_ops(path@, source@));
        batch
    }

    /// Indexes `source` under `path`, replacing what the path held: the batch of
    /// `engine_batch` goes to the engine under the shared lock. Callable from
    /// many threads at once.
    pub fn index_doc(&self, path: &str, source: &str) -> (r: Result<(), IndexError>)
        ensures
            r matches Err(e) ==> (e is LockFailed || e is Rejected),
    {
        let batch = self.engine_batch(path, source);
        self.writer.run_shared(batch)
    }

    /// Commits what the run submitted, under the exclusive lock.
    pub fn commit(&self) -> (r: Result<(), IndexError>)
        ensures
            r matches Err(e) ==> (e is LockFailed || e is CommitFailed),
    {
        self.writer.commit_exclusive()
    }
}

} // verus!
