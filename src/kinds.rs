//! The table of a grammar's node kinds, as generated code names them: one
//! entry per kind id, with a Rust identifier, whether that identifier had to be
//! numbered because an earlier kind took it, and the kind's name escaped for a
//! string literal.
use vstd::prelude::*;
use tree_sitter::Language;
use crate::tokens::{camel, camel_case, escaped, identifier_for, same_text, sanitize_identifier, sanitize_string};

verus! {

#[verifier::external_type_specification]
#[verifier::external_body]
pub struct ExLanguage(Language);

/// Relies on tree-sitter's `Language::node_kind_count`: the number of kind ids.
#[verifier::external_body]
fn kind_count(language: &Language) -> usize {
    language.node_kind_count()
}

/// Relies on tree-sitter's `Language::node_kind_is_named`: whether the kind is
/// a named one (not an anonymous token).
#[verifier::external_body]
fn kind_is_named(language: &Language, id: u16) -> bool {
    language.node_kind_is_named(id)
}

/// Relies on tree-sitter's `Language::node_kind_for_id`: the kind's name, if
/// the id has one. Grammars store these names as UTF-8 text, which the call
/// decodes.
#[verifier::external_body]
fn kind_name(language: &Language, id: u16) -> Option<String> {
    language.node_kind_for_id(id).map(|s| s.to_string())
}

/// The decimal digits of `n`.
pub open spec fn decimal(n: nat) -> Seq<char>
    decreases n,
{
    if n < 10 {
        seq![digit(n)]
    } else {
        decimal(n / 10).push(digit(n % 10))
    }
}

pub open spec fn digit(d: nat) -> char {
    if d == 0 { '0' }
    else if d == 1 { '1' }
    else if d == 2 { '2' }
    else if d == 3 { '3' }
    else if d == 4 { '4' }
    else if d == 5 { '5' }
    else if d == 6 { '6' }
    else if d == 7 { '7' }
    else if d == 8 { '8' }
    else { '9' }
}

fn digit_char(d: usize) -> (c: char)
    requires
        d < 10,
    ensures
        c == digit(d as nat),
{
    match d {
        0 => '0',
        1 => '1',
        2 => '2',
        3 => '3',
        4 => '4',
        5 => '5',
        6 => '6',
        7 => '7',
        8 => '8',
        _ => '9',
    }
}

/// Writes `n` in decimal.
pub fn decimal_text(n: usize) -> (r: String)
    ensures
        r@ == decimal(n as nat),
    decreases n,
{
    let mut s = if n < 10 {
        String::new()
    } else {
        decimal_text(n / 10)
    };
    s.push(digit_char(n % 10));
    proof {
        if n < 10 {
            assert(s@ =~= seq![digit(n as nat)]);
        }
    }
    s
}

/// A node kind: its name and whether it is a named kind.
pub type Kind = (Seq<char>, bool);

/// The identifier that a kind's name gives, before any numbering.
pub open spec fn base_name(kind: Seq<char>) -> Seq<char> {
    camel(identifier_for(kind), true)
}

/// The kinds are taken in two passes, the named kinds first, each pass by
/// ascending id: whether kind `j` is taken before kind `i`.
pub open spec fn comes_before(kinds: Seq<Kind>, j: int, i: int) -> bool {
    (kinds[j].1 && !kinds[i].1) || (kinds[j].1 == kinds[i].1 && j < i)
}

/// How many of the first `upto` kinds are taken before kind `i` and give the
/// same identifier.
pub open spec fn same_name_before(kinds: Seq<Kind>, i: int, upto: int) -> nat
    decreases upto,
{
    if upto <= 0 {
        0
    } else {
        same_name_before(kinds, i, upto - 1) + (if comes_before(kinds, upto - 1, i) && base_name(
            kinds[upto - 1].0,
        ) == base_name(kinds[i].0) {
            1nat
        } else {
            0nat
        })
    }
}

/// The entry of kind `i`: its identifier, numbered with its rank among the
/// kinds of the same identifier when one came before it, whether it was
/// numbered, its escaped name and its id.
pub open spec fn token_entry(kinds: Seq<Kind>, i: int) -> (Seq<char>, bool, Seq<char>, int) {
    let c = same_name_before(kinds, i, kinds.len() as int);
    let base = base_name(kinds[i].0);
    if c == 0 {
        (base, false, escaped(kinds[i].0, false), i)
    } else {
        (base + decimal(c + 1), true, escaped(kinds[i].0, false), i)
    }
}

pub open spec fn kinds_view(kinds: Seq<(String, bool)>) -> Seq<Kind> {
    kinds.map_values(|k: (String, bool)| (k.0@, k.1))
}

proof fn lemma_count_bound(kinds: Seq<Kind>, i: int, upto: int)
    ensures
        same_name_before(kinds, i, upto) <= if upto < 0 { 0 } else { upto },
    decreases upto,
{
    if upto > 0 {
        lemma_count_bound(kinds, i, upto - 1);
    }
}

/// The entries of a grammar's kinds, one per kind, by id.
pub fn token_entries(kinds: &Vec<(String, bool)>) -> (r: Vec<(String, bool, String, u16)>)
    requires
        kinds.len() <= 65536,
    ensures
        r.len() == kinds.len(),
        forall|i: int|
            0 <= i < r.len() ==> (#[trigger] r@[i].0@, r@[i].1, r@[i].2@, r@[i].3 as int)
                == token_entry(kinds_view(kinds@), i),
{
    let ghost kv = kinds_view(kinds@);
    let n = kinds.len();
    let mut bases: Vec<String> = Vec::new();
    let mut j: usize = 0;
    while j < n
        invariant
            n == kinds.len(),
            kv == kinds_view(kinds@),
            j <= n,
            bases.len() == j,
            forall|k: int| 0 <= k < j ==> (#[trigger] bases@[k])@ == base_name(kv[k].0),
        decreases n - j,
    {
        let ident = sanitize_identifier(kinds[j].0.as_str());
        bases.push(camel_case(ident));
        j = j + 1;
    }
    let mut r: Vec<(String, bool, String, u16)> = Vec::new();
    let mut i: usize = 0;
    while i < n
        invariant
            n == kinds.len(),
            n <= 65536,
            kv == kinds_view(kinds@),
            i <= n,
            bases.len() == n,
            forall|k: int| 0 <= k < n ==> (#[trigger] bases@[k])@ == base_name(kv[k].0),
            r.len() == i,
            forall|k: int|
                0 <= k < i ==> (#[trigger] r@[k].0@, r@[k].1, r@[k].2@, r@[k].3 as int)
                    == token_entry(kv, k),
        decreases n - i,
    {
        let named_i = kinds[i].1;
        let mut c: usize = 0;
        let mut j: usize = 0;
        while j < n
            invariant
                n == kinds.len(),
                kv == kinds_view(kinds@),
                i < n,
                j <= n,
                named_i == kv[i as int].1,
                bases.len() == n,
                forall|k: int| 0 <= k < n ==> (#[trigger] bases@[k])@ == base_name(kv[k].0),
                c == same_name_before(kv, i as int, j as int),
            decreases n - j,
        {
            let named_j = kinds[j].1;
            let before = (named_j && !named_i) || (named_j == named_i && j < i);
            proof {
                lemma_count_bound(kv, i as int, j as int);
            }
            if before && same_text(bases[j].as_str(), bases[i].as_str()) {
                c = c + 1;
            }
            j = j + 1;
        }
        let mut name = bases[i].clone();
        if c > 0 {
            proof {
                lemma_count_bound(kv, i as int, n as int);
            }
            let number = decimal_text(c + 1);
            name.append(number.as_str());
        }
        let kind = sanitize_string(kinds[i].0.as_str(), false);
        r.push((name, c > 0, kind, i as u16));
        proof {
            assert(r@[i as int].0@ == token_entry(kv, i as int).0);
        }
        i = i + 1;
    }
    r
}

/// The entries of a grammar's kinds, one per kind id, by id; `None` when the
/// grammar has more kinds than 16-bit ids reach, or an id without a name.
pub fn get_tokens(language: &Language) -> (r: Option<Vec<(String, bool, String, u16)>>)
    ensures
        r matches Some(v) ==> forall|i: int| 0 <= i < v.len() ==> (#[trigger] v@[i]).3 as int == i,
{
    let count = kind_count(language);
    if count > 65536 {
        return None;
    }
    let mut kinds: Vec<(String, bool)> = Vec::new();
    let mut i: usize = 0;
    while i < count
        invariant
            count <= 65536,
            i <= count,
            kinds.len() == i,
        decreases count - i,
    {
        let name = match kind_name(language, i as u16) {
            Some(name) => name,
            None => return None,
        };
        kinds.push((name, kind_is_named(language, i as u16)));
        i = i + 1;
    }
    let r = token_entries(&kinds);
    assert forall|i: int| 0 <= i < r.len() implies (#[trigger] r@[i]).3 as int == i by {
        assert((r@[i].0@, r@[i].1, r@[i].2@, r@[i].3 as int) == token_entry(kinds_view(kinds@), i));
    }
    Some(r)
}

} // verus!
