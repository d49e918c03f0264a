//! What the index holds, as the writer's operations change it: a delete by path
//! retires every document of that path submitted before it, an add appends one,
//! and nothing submitted is visible until a commit.
use vstd::prelude::*;

verus! {

/// A document: its path and its source text.
pub type Doc = (Seq<char>, Seq<char>);

/// One operation of a batch.
pub enum Op {
    Delete(Seq<char>),
    Add(Seq<char>, Seq<char>),
}

/// The index: the documents of the last commit, which readers see, and the
/// operations submitted since, in order.
pub struct IndexState {
    pub committed: Seq<Doc>,
    pub pending: Seq<Op>,
}

/// Whether a document is at the path.
pub open spec fn at(path: Seq<char>) -> spec_fn(Doc) -> bool {
    |d: Doc| d.0 == path
}

/// Whether a document is at another path.
pub open spec fn not_at(path: Seq<char>) -> spec_fn(Doc) -> bool {
    |d: Doc| d.0 != path
}

pub open spec fn apply_op(docs: Seq<Doc>, op: Op) -> Seq<Doc> {
    match op {
        Op::Delete(p) => docs.filter(not_at(p)),
        Op::Add(p, s) => docs.push((p, s)),
    }
}

pub open spec fn apply_ops(docs: Seq<Doc>, ops: Seq<Op>) -> Seq<Doc>
    decreases ops.len(),
{
    if ops.len() == 0 {
        docs
    } else {
        apply_op(apply_ops(docs, ops.drop_last()), ops.last())
    }
}

/// The batch that indexes `source` under `path`: a delete of the path's term,
/// then the add of the new document.
pub open spec fn upsert_ops(path: Seq<char>, source: Seq<char>) -> Seq<Op> {
    seq![Op::Delete(path), Op::Add(path, source)]
}

pub open spec fn submit(m: IndexState, ops: Seq<Op>) -> IndexState {
    IndexState { committed: m.committed, pending: m.pending + ops }
}

pub open spec fn commit(m: IndexState) -> IndexState {
    IndexState { committed: apply_ops(m.committed, m.pending), pending: Seq::empty() }
}

/// What a reader opened on the index sees.
pub open spec fn visible(m: IndexState) -> Seq<Doc> {
    m.committed
}

/// The visible documents of one path.
pub open spec fn docs_at(m: IndexState, path: Seq<char>) -> Seq<Doc> {
    visible(m).filter(at(path))
}

/// The operations of a run that upserts each `(path, source)` in turn.
pub open spec fn run_ops(files: Seq<Doc>) -> Seq<Op>
    decreases files.len(),
{
    if files.len() == 0 {
        Seq::empty()
    } else {
        run_ops(files.drop_last()) + upsert_ops(files.last().0, files.last().1)
    }
}

pub proof fn lemma_apply_ops_append(docs: Seq<Doc>, a: Seq<Op>, b: Seq<Op>)
    ensures
        apply_ops(docs, a + b) == apply_ops(apply_ops(docs, a), b),
    decreases b.len(),
{
    if b.len() == 0 {
        assert(a + b =~= a);
    } else {
        assert((a + b).drop_last() =~= a + b.drop_last());
        lemma_apply_ops_append(docs, a, b.drop_last());
    }
}

/// A batch applied to a set of documents.
pub proof fn lemma_apply_upsert(docs: Seq<Doc>, path: Seq<char>, source: Seq<char>)
    ensures
        apply_ops(docs, upsert_ops(path, source)) == docs.filter(not_at(path)).push(
            (path, source),
        ),
{
    let ops = upsert_ops(path, source);
    assert(ops.drop_last() =~= seq![Op::Delete(path)]);
    assert(seq![Op::Delete(path)].drop_last() =~= Seq::<Op>::empty());
    assert(apply_ops(docs, Seq::<Op>::empty()) == docs);
    assert(apply_ops(docs, seq![Op::Delete(path)]) == docs.filter(not_at(path)));
    assert(ops.last() == Op::Add(path, source));
}

proof fn lemma_filter_push_keep(docs: Seq<Doc>, d: Doc, path: Seq<char>)
    requires
        d.0 == path,
    ensures
        docs.push(d).filter(at(path)) == docs.filter(at(path)).push(d),
        docs.push(d).filter(not_at(path)) == docs.filter(not_at(path)),
{
    docs.lemma_filter_push(d, at(path));
    docs.lemma_filter_push(d, not_at(path));
}

proof fn lemma_filter_idem(docs: Seq<Doc>, path: Seq<char>)
    ensures
        docs.filter(not_at(path)).filter(not_at(path)) == docs.filter(not_at(path)),
    decreases docs.len(),
{
    let f = not_at(path);
    if docs.len() == 0 {
        reveal(Seq::filter);
        assert(docs.filter(f) =~= docs);
        assert(docs.filter(f).filter(f) =~= docs);
    } else {
        let rest = docs.drop_last();
        let x = docs.last();
        assert(docs =~= rest.push(x));
        lemma_filter_idem(rest, path);
        rest.lemma_filter_push(x, f);
        if f(x) {
            rest.filter(f).lemma_filter_push(x, f);
        }
    }
}

proof fn lemma_filter_none(docs: Seq<Doc>, path: Seq<char>)
    ensures
        docs.filter(not_at(path)).filter(at(path)) == Seq::<Doc>::empty(),
    decreases docs.len(),
{
    let f = not_at(path);
    let g = at(path);
    if docs.len() == 0 {
        reveal(Seq::filter);
        assert(docs.filter(f) =~= docs);
        assert(docs.filter(f).filter(g) =~= docs);
    } else {
        let rest = docs.drop_last();
        let x = docs.last();
        assert(docs =~= rest.push(x));
        lemma_filter_none(rest, path);
        rest.lemma_filter_push(x, f);
        if f(x) {
            rest.filter(f).lemma_filter_push(x, g);
        }
    }
}

/// Re-indexing a file that has not changed: upserting and committing the same
/// path and text a second time leaves the index exactly as the first time left
/// it, with one document for the path, holding that text.
pub proof fn lemma_reindex_idempotent(m: IndexState, path: Seq<char>, source: Seq<char>)
    requires
        m.pending.len() == 0,
    ensures
        ({
            let once = commit(submit(m, upsert_ops(path, source)));
            let twice = commit(submit(once, upsert_ops(path, source)));
            &&& visible(twice) == visible(once)
            &&& docs_at(twice, path) == seq![(path, source)]
        }),
{
    let once = commit(submit(m, upsert_ops(path, source)));
    assert(submit(m, upsert_ops(path, source)).pending =~= upsert_ops(path, source));
    lemma_apply_upsert(m.committed, path, source);
    let rest = m.committed.filter(not_at(path));
    assert(once.committed == rest.push((path, source)));
    assert(submit(once, upsert_ops(path, source)).pending =~= upsert_ops(path, source));
    lemma_apply_upsert(once.committed, path, source);
    lemma_filter_push_keep(rest, (path, source), path);
    lemma_filter_none(m.committed, path);
    lemma_filter_idem(m.committed, path);
    assert(seq![(path, source)] =~= Seq::<Doc>::empty().push((path, source)));
}

/// An update replaces the document of its path: after upserting `a`,
/// committing, then upserting `b` and committing, the only document of the path
/// holds `b`, so `a` is no longer found there.
pub proof fn lemma_update_replaces(m: IndexState, path: Seq<char>, a: Seq<char>, b: Seq<char>)
    requires
        m.pending.len() == 0,
    ensures
        ({
            let first = commit(submit(m, upsert_ops(path, a)));
            let second = commit(submit(first, upsert_ops(path, b)));
            &&& docs_at(second, path) == seq![(path, b)]
            &&& a != b ==> !visible(second).contains((path, a))
        }),
{
    let first = commit(submit(m, upsert_ops(path, a)));
    assert(submit(m, upsert_ops(path, a)).pending =~= upsert_ops(path, a));
    lemma_apply_upsert(m.committed, path, a);
    let second = commit(submit(first, upsert_ops(path, b)));
    assert(submit(first, upsert_ops(path, b)).pending =~= upsert_ops(path, b));
    lemma_apply_upsert(first.committed, path, b);
    let rest = first.committed.filter(not_at(path));
    lemma_filter_push_keep(rest, (path, b), path);
    lemma_filter_none(first.committed, path);
    assert(seq![(path, b)] =~= Seq::<Doc>::empty().push((path, b)));
    if a != b && visible(second).contains((path, a)) {
        let i = choose|i: int| 0 <= i < visible(second).len() && visible(second)[i] == (path, a);
        if i < rest.len() {
            first.committed.lemma_filter_pred(not_at(path), i);
        }
    }
}

/// The paths of a run's files are distinct: each file is visited once.
pub open spec fn distinct_paths(files: Seq<Doc>) -> bool {
    forall|i: int, j: int| 0 <= i < j < files.len() ==> #[trigger] files[i].0 != #[trigger] files[j].0
}

proof fn lemma_run_contains(docs: Seq<Doc>, files: Seq<Doc>)
    requires
        distinct_paths(files),
    ensures
        forall|i: int| 0 <= i < files.len() ==> #[trigger] apply_ops(docs, run_ops(files)).contains(files[i]),
    decreases files.len(),
{
    if files.len() > 0 {
        let prefix = files.drop_last();
        let last = files.last();
        assert(distinct_paths(prefix)) by {
            assert forall|i: int, j: int| 0 <= i < j < prefix.len() implies #[trigger] prefix[i].0 != #[trigger] prefix[j].0 by {
                assert(prefix[i] == files[i] && prefix[j] == files[j]);
            }
        }
        lemma_run_contains(docs, prefix);
        let before = apply_ops(docs, run_ops(prefix));
        lemma_apply_ops_append(docs, run_ops(prefix), upsert_ops(last.0, last.1));
        lemma_apply_upsert(before, last.0, last.1);
        let after = before.filter(not_at(last.0)).push(last);
        assert(apply_ops(docs, run_ops(files)) == after);
        assert forall|i: int| 0 <= i < files.len() implies #[trigger] after.contains(files[i]) by {
            if i == files.len() - 1 {
                assert(after[after.len() - 1] == files[i]);
            } else {
                assert(files[i] == prefix[i]);
                assert(before.contains(prefix[i]));
                let k = choose|k: int| 0 <= k < before.len() && before[k] == prefix[i];
                assert(files[i].0 != files[files.len() - 1].0);
                before.lemma_filter_contains(not_at(last.0), k);
                let kept = before.filter(not_at(last.0));
                let m = choose|m: int| 0 <= m < kept.len() && kept[m] == files[i];
                assert(after[m] == files[i]);
            }
        }
    }
}

/// The commit barrier: what a run submits is not visible before its commit,
/// and every file that the run upserted is visible after it.
pub proof fn lemma_commit_barrier(m: IndexState, files: Seq<Doc>)
    requires
        m.pending.len() == 0,
        distinct_paths(files),
    ensures
        visible(submit(m, run_ops(files))) == visible(m),
        forall|i: int|
            0 <= i < files.len() ==> #[trigger] visible(commit(submit(m, run_ops(files)))).contains(
                files[i],
            ),
{
    assert(submit(m, run_ops(files)).pending =~= run_ops(files));
    lemma_run_contains(m.committed, files);
}

} // verus!
