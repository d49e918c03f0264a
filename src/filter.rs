//! Which entries of a tree the traversal admits: the root always, any other
//! entry unless an ignore pattern excludes it or its name marks it hidden.
use vstd::prelude::*;
use ignore::gitignore::Gitignore;
use crate::tokens::same_text;

verus! {

#[verifier::external_type_specification]
#[verifier::external_body]
pub struct ExGitignore(Gitignore);

/// Relies on `ignore::gitignore::Gitignore::matched` and `Match::is_ignore`:
/// whether a pattern of the loaded ignore file excludes the path. Nothing is
/// stated of the answer, which depends on the patterns.
#[verifier::external_body]
fn pattern_excludes(rules: &Gitignore, path: &str, is_dir: bool) -> (r: bool) {
    rules.matched(path, is_dir).is_ignore()
}

/// A name is hidden when it starts with `.`.
pub open spec fn hidden(name: Seq<char>) -> bool {
    name.len() > 0 && name[0] == '.'
}

/// The admission rule for one entry.
pub open spec fn admits(is_root: bool, excluded: bool, name: Seq<char>) -> bool {
    is_root || (!excluded && !hidden(name))
}

/// Whether the entry's own name (not its path) marks it hidden.
pub fn is_hidden(name: &str) -> (r: bool)
    ensures
        r == hidden(name@),
{
    if name.unicode_len() == 0 {
        false
    } else {
        name.get_char(0) == '.'
    }
}

/// The admission rule, given whether an ignore pattern excludes the entry.
pub fn admit_entry(is_root: bool, excluded: bool, name: &str) -> (r: bool)
    ensures
        r == admits(is_root, excluded, name@),
{
    is_root || (!excluded && !is_hidden(name))
}

/// The traversal's entry predicate for one root and the ignore rules loaded
/// from that root.
pub struct IgnoreFilter {
    root: String,
    rules: Gitignore,
}

impl IgnoreFilter {
    pub closed spec fn root_view(&self) -> Seq<char> {
        self.root@
    }

    pub fn new(root: String, rules: Gitignore) -> (r: Self)
        ensures
            r.root_view() == root@,
    {
        IgnoreFilter { root, rules }
    }

    /// Whether the traversal takes in the entry at `path`, named `name`. The
    /// root is always taken; a hidden entry never is, other than the root; an
    /// entry that a pattern excludes is not either.
    pub fn should_process(&self, path: &str, is_dir: bool, name: &str) -> (r: bool)
        ensures
            path@ == self.root_view() ==> r,
            path@ != self.root_view() && hidden(name@) ==> !r,
    {
        let is_root = same_text(path, self.root.as_str());
        if is_root {
            return admit_entry(true, false, name);
        }
        let excluded = pattern_excludes(&self.rules, path, is_dir);
        admit_entry(false, excluded, name)
    }
}

/// An entry on the way down from the root to a file: whether it is the root,
/// whether an ignore pattern excludes it, and its name.
pub struct EntryFacts {
    pub is_root: bool,
    pub excluded: bool,
    pub name: Seq<char>,
}

/// A file is reached when every entry from the root down to it, itself
/// included, is admitted: an entry that is not admitted is not descended into.
pub open spec fn reached(chain: Seq<EntryFacts>) -> bool {
    forall|i: int|
        0 <= i < chain.len() ==> admits(#[trigger] chain[i].is_root, chain[i].excluded, chain[i].name)
}

/// Pruning: a file below an excluded directory, or the excluded entry itself,
/// is never reached, whatever it would be on its own.
pub proof fn lemma_excluded_subtree_pruned(chain: Seq<EntryFacts>, k: int)
    requires
        0 <= k < chain.len(),
        !chain[k].is_root,
        chain[k].excluded,
    ensures
        !reached(chain),
{
    assert(!admits(chain[k].is_root, chain[k].excluded, chain[k].name));
}

/// Hidden entries: a file whose name starts with `.` is never reached, whatever
/// the ignore patterns say.
pub proof fn lemma_hidden_never_reached(chain: Seq<EntryFacts>)
    requires
        chain.len() > 0,
        !chain.last().is_root,
        hidden(chain.last().name),
    ensures
        !reached(chain),
{
    let k = chain.len() - 1;
    assert(!admits(chain[k].is_root, chain[k].excluded, chain[k].name));
}

} // verus!
