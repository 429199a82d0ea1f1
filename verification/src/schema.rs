//! How the schema given by the user is looked up: a double-quoted name is
//! taken literally, any other name is tried as given and then in upper case.

use vstd::prelude::*;

use crate::error::Error;
use crate::text::{
    chars_equal, chars_to_ascii_upper, chars_trim, lemma_trim_end_prefix,
    lemma_trim_start_suffix, seq_ascii_upper, str_chars, string_from_chars, trim, trim_end,
    trim_start, is_whitespace,
};

verus! {

broadcast use vstd::string::group_string_axioms;

/// `s` with each `""`, read from left to right, written as `"`.
pub open spec fn undouble_quotes(s: Seq<char>) -> Seq<char>
    decreases s.len(),
{
    if s.len() >= 2 && s[0] == '"' && s[1] == '"' {
        seq!['"'] + undouble_quotes(s.skip(2))
    } else if s.len() > 0 {
        seq![s[0]] + undouble_quotes(s.skip(1))
    } else {
        Seq::empty()
    }
}

/// `s` with each `"` written as `""`.
pub open spec fn double_quotes(s: Seq<char>) -> Seq<char>
    decreases s.len(),
{
    if s.len() == 0 {
        Seq::empty()
    } else if s[0] == '"' {
        seq!['"', '"'] + double_quotes(s.skip(1))
    } else {
        seq![s[0]] + double_quotes(s.skip(1))
    }
}

/// The identifier inside a double-quoted identifier, or `None` when `s` is
/// not enclosed in double quotes.
pub open spec fn unquote_spec(s: Seq<char>) -> Option<Seq<char>> {
    if s.len() >= 2 && s[0] == '"' && s.last() == '"' {
        Some(undouble_quotes(s.subrange(1, s.len() - 1)))
    } else {
        None
    }
}

/// The name to look up for a schema argument, and whether it was given as a
/// quoted identifier.
pub open spec fn schema_lookup_spec(schema: Seq<char>) -> (Seq<char>, bool) {
    match unquote_spec(trim(schema)) {
        Some(u) => (u, true),
        None => (schema, false),
    }
}

/// The names to try, in order, when looking up a schema: the lookup name,
/// then its upper-case form when the name was not quoted and differs from it.
pub open spec fn schema_lookup_candidates_spec(schema: Seq<char>) -> Seq<Seq<char>> {
    let (name, quoted) = schema_lookup_spec(schema);
    if !quoted && seq_ascii_upper(name) != name {
        seq![name, seq_ascii_upper(name)]
    } else {
        seq![name]
    }
}

/// The identifier inside a double-quoted identifier (with `""` read as `"`),
/// or `None` when `schema` is not enclosed in double quotes.
pub fn unquote_schema_identifier(schema: &Vec<char>) -> (r: Option<Vec<char>>)
    ensures
        match unquote_spec(schema@) {
            Some(u) => r matches Some(v) && v@ == u,
            None => r is None,
        },
{
    let n = schema.len();
    if n < 2 || schema[0] != '"' || schema[n - 1] != '"' {
        return None;
    }
    let ghost inner = schema@.subrange(1, n - 1);
    let m = n - 1;
    let mut out: Vec<char> = Vec::new();
    let mut i: usize = 1;
    assert(inner.skip(0) == inner);
    while i < m
        invariant
            n == schema.len(),
            m == n - 1,
            1 <= i <= m,
            inner == schema@.subrange(1, n - 1),
            undouble_quotes(inner) == out@ + undouble_quotes(inner.skip(i - 1)),
        decreases m - i,
    {
        let ghost rest = inner.skip(i - 1);
        assert(rest[0] == schema@[i as int]);
        if schema[i] == '"' && i + 1 < m && schema[i + 1] == '"' {
            assert(rest[1] == schema@[i + 1]);
            assert(rest.skip(2) == inner.skip(i + 1));
            out.push('"');
            i = i + 2;
        } else {
            assert(rest.skip(1) == inner.skip(i as int));
            out.push(schema[i]);
            i = i + 1;
        }
        assert(out@ + undouble_quotes(inner.skip(i - 1)) =~= undouble_quotes(inner));
    }
    assert(inner.skip(i - 1).len() == 0);
    assert(out@ =~= undouble_quotes(inner));
    Some(out)
}

/// The name to look up for a schema argument and whether it was quoted: a
/// double-quoted identifier (after trimming) is unquoted and taken
/// literally; any other argument is used exactly as given.
pub fn schema_lookup_value(schema: &str) -> (r: (String, bool))
    ensures
        r.0@ == schema_lookup_spec(schema@).0,
        r.1 == schema_lookup_spec(schema@).1,
{
    let chars = str_chars(schema);
    let trimmed = chars_trim(&chars);
    match unquote_schema_identifier(&trimmed) {
        Some(unquoted) => (string_from_chars(&unquoted), true),
        None => (string_from_chars(&chars), false),
    }
}

/// The names to try, in order, when looking up a schema.
pub fn schema_lookup_candidates(schema: &str) -> (r: Vec<String>)
    ensures
        r@.map_values(|s: String| s@) == schema_lookup_candidates_spec(schema@),
{
    let (name, quoted) = schema_lookup_value(schema);
    let chars = str_chars(name.as_str());
    let upper = chars_to_ascii_upper(&chars);
    let same = chars_equal(&upper, &chars);
    let mut r: Vec<String> = Vec::new();
    r.push(name);
    if !quoted && !same {
        r.push(string_from_chars(&upper));
    }
    assert(r@.map_values(|s: String| s@) =~= schema_lookup_candidates_spec(schema@));
    r
}

/// The outcome of looking up a schema, given what the lookup of each
/// candidate name found, in candidate order: the first owner found, or
/// `SchemaNotFound` with the name that was looked up.
pub fn schema_resolution(schema: &str, found: &Vec<Option<String>>) -> (r: Result<String, Error>)
    ensures
        match r {
            Ok(owner) => exists|i: int|
                0 <= i < found.len() && #[trigger] found@[i] == Some(owner) && forall|j: int|
                    0 <= j < i ==> #[trigger] found@[j] is None,
            Err(Error::SchemaNotFound(name)) => name@ == schema_lookup_spec(schema@).0
                && forall|i: int| 0 <= i < found.len() ==> #[trigger] found@[i] is None,
            Err(_) => false,
        },
{
    let n = found.len();
    for i in 0..n
        invariant
            n == found.len(),
            forall|j: int| 0 <= j < i ==> #[trigger] found@[j] is None,
    {
        match &found[i] {
            Some(owner) => {
                let owner = owner.clone();
                assert(found@[i as int] == Some(owner));
                return Ok(owner);
            },
            None => {},
        }
    }
    let (name, _) = schema_lookup_value(schema);
    Err(Error::SchemaNotFound(name))
}

proof fn lemma_undouble_double(n: Seq<char>)
    ensures
        undouble_quotes(double_quotes(n)) == n,
    decreases n.len(),
{
    if n.len() > 0 {
        lemma_undouble_double(n.skip(1));
        let d = double_quotes(n);
        if n[0] == '"' {
            assert(d.skip(2) == double_quotes(n.skip(1)));
        } else {
            assert(d.skip(1) == double_quotes(n.skip(1)));
            assert(!(d.len() >= 2 && d[0] == '"' && d[1] == '"'));
        }
        assert(n == seq![n[0]] + n.skip(1));
    }
}

/// A name written as a quoted identifier (enclosed in `"`, with inner `"`
/// doubled) is looked up literally, as exactly that name.
pub proof fn lemma_quoted_schema_lookup(name: Seq<char>)
    ensures
        schema_lookup_spec(seq!['"'] + double_quotes(name) + seq!['"']) == (name, true),
{
    let q = seq!['"'] + double_quotes(name) + seq!['"'];
    lemma_trim_start_suffix(q);
    assert(!is_whitespace(q[0]));
    assert(trim_start(q) == q) by {
        if trim_start(q).len() < q.len() {
            assert(is_whitespace(q[0]));
        }
        assert(q.skip(0) == q);
    }
    lemma_trim_end_prefix(q);
    assert(trim_end(q) == q) by {
        if trim_end(q).len() < q.len() {
            assert(is_whitespace(q[q.len() - 1]));
        }
        assert(q.take(q.len() as int) == q);
    }
    assert(q.subrange(1, q.len() - 1) == double_quotes(name));
    lemma_undouble_double(name);
}


/// The names looked up for a schema argument: first the name as given (or
/// the identifier inside the quotes), then, for a name that is not a quoted
/// identifier, its upper-case form; no other name.
pub proof fn lemma_schema_candidates_retry_upper_case(schema: Seq<char>)
    ensures
        ({
            let (name, quoted) = schema_lookup_spec(schema);
            let c = schema_lookup_candidates_spec(schema);
            &&& c.len() >= 1
            &&& c[0] == name
            &&& !quoted ==> c.contains(seq_ascii_upper(name))
            &&& quoted ==> c == seq![name]
            &&& forall|i: int| 0 <= i < c.len() ==> #[trigger] c[i] == name || c[i] == seq_ascii_upper(
                name,
            )
        }),
{
    let (name, quoted) = schema_lookup_spec(schema);
    let c = schema_lookup_candidates_spec(schema);
    if !quoted {
        if seq_ascii_upper(name) != name {
            assert(c[1] == seq_ascii_upper(name));
        } else {
            assert(c[0] == seq_ascii_upper(name));
        }
    }
}


/// A schema argument without double quotes is not a quoted identifier: it is
/// looked up as given, and then in upper case when that differs.
pub proof fn lemma_unquoted_schema_lookup(schema: Seq<char>)
    requires
        !schema.contains('"'),
    ensures
        schema_lookup_spec(schema) == (schema, false),
        seq_ascii_upper(schema) != schema ==> schema_lookup_candidates_spec(schema) == seq![
            schema,
            seq_ascii_upper(schema),
        ],
{
    let t = trim(schema);
    let u = trim_start(schema);
    lemma_trim_start_suffix(schema);
    lemma_trim_end_prefix(u);
    if t.len() >= 2 && t[0] == '"' {
        assert(t[0] == u[0]);
        assert(u[0] == schema[schema.len() - u.len()]);
        assert(schema.contains('"'));
    }
}

} // verus!
