//! Turning grammar node-kind names into Rust identifiers and string literals.
use vstd::prelude::*;

verus! {

/// Relies on `String::push`: the character is appended at the end.
pub assume_specification[ String::push ](s: &mut String, ch: char)
    ensures
        final(s)@ == old(s)@.push(ch),
;

/// What one character of a kind name becomes inside a generated string literal,
/// when it needs escaping. `escape` doubles each backslash, for a literal that is
/// itself written inside another one.
pub open spec fn escape_word(c: char, escape: bool) -> Option<Seq<char>> {
    if escape {
        if c == '"' {
            Some("\\\\\\\""@)
        } else if c == '\\' {
            Some("\\\\\\\\"@)
        } else if c == '\t' {
            Some("\\\\t"@)
        } else if c == '\n' {
            Some("\\\\n"@)
        } else if c == '\r' {
            Some("\\\\r"@)
        } else {
            None
        }
    } else {
        if c == '"' {
            Some("\\\""@)
        } else if c == '\\' {
            Some("\\\\"@)
        } else if c == '\t' {
            Some("\\t"@)
        } else if c == '\n' {
            Some("\\n"@)
        } else if c == '\r' {
            Some("\\r"@)
        } else {
            None
        }
    }
}

pub open spec fn escape_char(c: char, escape: bool) -> Seq<char> {
    match escape_word(c, escape) {
        Some(w) => w,
        None => seq![c],
    }
}

/// The escaped form of a whole name: each character escaped in turn.
pub open spec fn escaped(s: Seq<char>, escape: bool) -> Seq<char>
    decreases s.len(),
{
    if s.len() == 0 {
        Seq::empty()
    } else {
        escaped(s.drop_last(), escape) + escape_char(s.last(), escape)
    }
}

fn escape_text(c: char, escape: bool) -> (r: Option<&'static str>)
    ensures
        match r {
            Some(w) => escape_word(c, escape) == Some(w@),
            None => escape_word(c, escape) is None,
        },
{
    if escape {
        match c {
            '"' => Some("\\\\\\\""),
            '\\' => Some("\\\\\\\\"),
            '\t' => Some("\\\\t"),
            '\n' => Some("\\\\n"),
            '\r' => Some("\\\\r"),
            _ => None,
        }
    } else {
        match c {
            '"' => Some("\\\""),
            '\\' => Some("\\\\"),
            '\t' => Some("\\t"),
            '\n' => Some("\\n"),
            '\r' => Some("\\r"),
            _ => None,
        }
    }
}

/// Escapes `name` so that it can stand between double quotes in generated code.
pub fn sanitize_string(name: &str, escape: bool) -> (r: String)
    ensures
        r@ == escaped(name@, escape),
{
    let mut result = String::new();
    let n = name.unicode_len();
    let mut i: usize = 0;
    while i < n
        invariant
            n == name@.len(),
            i <= n,
            result@ == escaped(name@.subrange(0, i as int), escape),
        decreases n - i,
    {
        let c = name.get_char(i);
        proof {
            assert(name@.subrange(0, i + 1).drop_last() =~= name@.subrange(0, i as int));
        }
        match escape_text(c, escape) {
            Some(w) => result.append(w),
            None => result.push(c),
        }
        i = i + 1;
    }
    proof {
        assert(name@.subrange(0, n as int) =~= name@);
    }
    result
}


/// The upper-case mapping of one character, as `char::to_uppercase` gives it.
pub uninterp spec fn uppercase_of(c: char) -> Seq<char>;

/// Relies on `char::to_uppercase`: the upper-case form of a character depends on
/// that character alone.
#[verifier::external_body]
fn uppercase(c: char) -> (r: String)
    ensures
        r@ == uppercase_of(c),
{
    c.to_uppercase().collect()
}

/// Camel case of `s`: each `_` is dropped and makes the next character upper
/// case; `cap` says whether the first character is upper-cased.
pub open spec fn camel(s: Seq<char>, cap: bool) -> Seq<char>
    decreases s.len(),
{
    if s.len() == 0 {
        Seq::empty()
    } else if s[0] == '_' {
        camel(s.drop_first(), true)
    } else if cap {
        uppercase_of(s[0]) + camel(s.drop_first(), false)
    } else {
        seq![s[0]] + camel(s.drop_first(), false)
    }
}

/// Converts a snake-case name into camel case, with its first letter upper case.
pub fn camel_case(name: String) -> (r: String)
    ensures
        r@ == camel(name@, true),
{
    let mut result = String::new();
    let mut cap = true;
    let s = name.as_str();
    let n = s.unicode_len();
    let mut i: usize = 0;
    proof {
        assert(name@.subrange(0, n as int) =~= name@);
        assert(result@ + camel(name@, true) =~= camel(name@, true));
    }
    while i < n
        invariant
            n == name@.len(),
            s@ == name@,
            i <= n,
            result@ + camel(name@.subrange(i as int, n as int), cap) == camel(name@, true),
        decreases n - i,
    {
        let c = s.get_char(i);
        proof {
            assert(name@.subrange(i as int, n as int).drop_first() =~= name@.subrange(
                i + 1,
                n as int,
            ));
        }
        if c == '_' {
            cap = true;
        } else if cap {
            let u = uppercase(c);
            proof {
                let rest = camel(name@.subrange(i + 1, n as int), false);
                assert(result@ + (u@ + rest) =~= (result@ + u@) + rest);
            }
            result.append(u.as_str());
            cap = false;
        } else {
            proof {
                let rest = camel(name@.subrange(i + 1, n as int), false);
                assert(result@ + (seq![c] + rest) =~= result@.push(c) + rest);
            }
            result.push(c);
        }
        i = i + 1;
    }
    proof {
        assert(result@ + camel(name@.subrange(n as int, n as int), cap) =~= result@);
    }
    result
}

/// The word that stands for a punctuation or control character in an identifier.
pub open spec fn punct_word(c: char) -> Option<Seq<char>> {
    if c == '~' { Some("TILDE"@) }
    else if c == '`' { Some("BQUOTE"@) }
    else if c == '!' { Some("BANG"@) }
    else if c == '@' { Some("AT"@) }
    else if c == '#' { Some("HASH"@) }
    else if c == '$' { Some("DOLLAR"@) }
    else if c == '%' { Some("PERCENT"@) }
    else if c == '^' { Some("CARET"@) }
    else if c == '&' { Some("AMP"@) }
    else if c == '*' { Some("STAR"@) }
    else if c == '(' { Some("LPAREN"@) }
    else if c == ')' { Some("RPAREN"@) }
    else if c == '-' { Some("DASH"@) }
    else if c == '+' { Some("PLUS"@) }
    else if c == '=' { Some("EQ"@) }
    else if c == '{' { Some("LBRACE"@) }
    else if c == '}' { Some("RBRACE"@) }
    else if c == '[' { Some("LBRACK"@) }
    else if c == ']' { Some("RBRACK"@) }
    else if c == '\\' { Some("BSLASH"@) }
    else if c == '|' { Some("PIPE"@) }
    else if c == ':' { Some("COLON"@) }
    else if c == ';' { Some("SEMI"@) }
    else if c == '"' { Some("DQUOTE"@) }
    else if c == '\'' { Some("SQUOTE"@) }
    else if c == '<' { Some("LT"@) }
    else if c == '>' { Some("GT"@) }
    else if c == ',' { Some("COMMA"@) }
    else if c == '.' { Some("DOT"@) }
    else if c == '?' { Some("QMARK"@) }
    else if c == '/' { Some("SLASH"@) }
    else if c == '\n' { Some("LF"@) }
    else if c == '\r' { Some("CR"@) }
    else if c == '\t' { Some("TAB"@) }
    else { None }
}

fn punct_text(c: char) -> (r: Option<&'static str>)
    ensures
        match r {
            Some(w) => punct_word(c) == Some(w@),
            None => punct_word(c) is None,
        },
        r matches Some(w) ==> w@.len() > 0,
{
    proof {
        reveal_strlit("TILDE");
        reveal_strlit("BQUOTE");
        reveal_strlit("BANG");
        reveal_strlit("AT");
        reveal_strlit("HASH");
        reveal_strlit("DOLLAR");
        reveal_strlit("PERCENT");
        reveal_strlit("CARET");
        reveal_strlit("AMP");
        reveal_strlit("STAR");
        reveal_strlit("LPAREN");
        reveal_strlit("RPAREN");
        reveal_strlit("DASH");
        reveal_strlit("PLUS");
        reveal_strlit("EQ");
        reveal_strlit("LBRACE");
        reveal_strlit("RBRACE");
        reveal_strlit("LBRACK");
        reveal_strlit("RBRACK");
        reveal_strlit("BSLASH");
        reveal_strlit("PIPE");
        reveal_strlit("COLON");
        reveal_strlit("SEMI");
        reveal_strlit("DQUOTE");
        reveal_strlit("SQUOTE");
        reveal_strlit("LT");
        reveal_strlit("GT");
        reveal_strlit("COMMA");
        reveal_strlit("DOT");
        reveal_strlit("QMARK");
        reveal_strlit("SLASH");
        reveal_strlit("LF");
        reveal_strlit("CR");
        reveal_strlit("TAB");
    }
    match c {
        '~' => Some("TILDE"),
        '`' => Some("BQUOTE"),
        '!' => Some("BANG"),
        '@' => Some("AT"),
        '#' => Some("HASH"),
        '$' => Some("DOLLAR"),
        '%' => Some("PERCENT"),
        '^' => Some("CARET"),
        '&' => Some("AMP"),
        '*' => Some("STAR"),
        '(' => Some("LPAREN"),
        ')' => Some("RPAREN"),
        '-' => Some("DASH"),
        '+' => Some("PLUS"),
        '=' => Some("EQ"),
        '{' => Some("LBRACE"),
        '}' => Some("RBRACE"),
        '[' => Some("LBRACK"),
        ']' => Some("RBRACK"),
        '\\' => Some("BSLASH"),
        '|' => Some("PIPE"),
        ':' => Some("COLON"),
        ';' => Some("SEMI"),
        '"' => Some("DQUOTE"),
        '\'' => Some("SQUOTE"),
        '<' => Some("LT"),
        '>' => Some("GT"),
        ',' => Some("COMMA"),
        '.' => Some("DOT"),
        '?' => Some("QMARK"),
        '/' => Some("SLASH"),
        '\n' => Some("LF"),
        '\r' => Some("CR"),
        '\t' => Some("TAB"),
        _ => None,
    }
}

pub open spec fn is_ident_char(c: char) -> bool {
    ('a' <= c && c <= 'z') || ('A' <= c && c <= 'Z') || ('0' <= c && c <= '9') || c == '_'
}

/// One character added to an identifier under construction: identifier
/// characters are kept, punctuation becomes its word (separated by `_` from what
/// precedes it, unless that is empty or already ends in `_`), anything else is
/// dropped.
pub open spec fn ident_step(acc: Seq<char>, c: char) -> Seq<char> {
    if is_ident_char(c) {
        acc.push(c)
    } else {
        match punct_word(c) {
            None => acc,
            Some(w) => if acc.len() != 0 && acc.last() != '_' {
                acc.push('_') + w
            } else {
                acc + w
            },
        }
    }
}

pub open spec fn ident_chars(s: Seq<char>) -> Seq<char>
    decreases s.len(),
{
    if s.len() == 0 {
        Seq::empty()
    } else {
        ident_step(ident_chars(s.drop_last()), s.last())
    }
}

/// The identifier for a node-kind name: four names that cannot be identifiers
/// as they stand get fixed replacements, any other goes character by character.
pub open spec fn identifier_for(s: Seq<char>) -> Seq<char> {
    if s == "ï»¿"@ {
        "BOM"@
    } else if s == "_"@ {
        "UNDERSCORE"@
    } else if s == "self"@ {
        "Zelf"@
    } else if s == "Self"@ {
        "SELF"@
    } else {
        ident_chars(s)
    }
}

pub(crate) fn same_text(a: &str, b: &str) -> (r: bool)
    ensures
        r == (a@ == b@),
{
    let n = a.unicode_len();
    if n != b.unicode_len() {
        return false;
    }
    let mut i: usize = 0;
    while i < n
        invariant
            n == a@.len(),
            n == b@.len(),
            i <= n,
            forall|j: int| 0 <= j < i ==> a@[j] == b@[j],
        decreases n - i,
    {
        if a.get_char(i) != b.get_char(i) {
            return false;
        }
        i = i + 1;
    }
    proof {
        assert(a@ =~= b@);
    }
    true
}

/// Turns a node-kind name into a Rust identifier.
pub fn sanitize_identifier(name: &str) -> (r: String)
    ensures
        r@ == identifier_for(name@),
{
    if same_text(name, "ï»¿") {
        return String::from_str("BOM");
    }
    if same_text(name, "_") {
        return String::from_str("UNDERSCORE");
    }
    if same_text(name, "self") {
        return String::from_str("Zelf");
    }
    if same_text(name, "Self") {
        return String::from_str("SELF");
    }
    let mut result = String::new();
    let mut last: Option<char> = None;
    let n = name.unicode_len();
    let mut i: usize = 0;
    while i < n
        invariant
            n == name@.len(),
            i <= n,
            result@ == ident_chars(name@.subrange(0, i as int)),
            last == (if result@.len() == 0 { None } else { Some(result@.last()) }),
        decreases n - i,
    {
        let c = name.get_char(i);
        proof {
            assert(name@.subrange(0, i + 1).drop_last() =~= name@.subrange(0, i as int));
        }
        if ('a' <= c && c <= 'z') || ('A' <= c && c <= 'Z') || ('0' <= c && c <= '9') || c
            == '_' {
            result.push(c);
            last = Some(c);
        } else {
            match punct_text(c) {
                None => {},
                Some(w) => {
                    let sep = match last {
                        Some(l) => l != '_',
                        None => false,
                    };
                    if sep {
                        result.push('_');
                    }
                    result.append(w);
                    proof {
                        assert(result@.last() == w@.last());
                    }
                    last = Some(w.get_char(w.unicode_len() - 1));
                },
            }
        }
        i = i + 1;
    }
    proof {
        assert(name@.subrange(0, n as int) =~= name@);
    }
    result
}

} // verus!
