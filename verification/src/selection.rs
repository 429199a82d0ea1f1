//! Which object kinds an export covers: the default core set, adjusted by
//! include and exclude selectors such as `indexes,synonyms` or `type-body`.

use vstd::prelude::*;

use crate::error::Error;
use crate::kind::{kind_index, ObjectKind};
use crate::text::{
    chars_equal_str, chars_to_ascii_lower, chars_trim, seq_ascii_lower, split_segments, str_chars,
    string_from_chars, trim,
};

verus! {

broadcast use vstd::string::group_string_axioms;

/// The position of a kind in the declaration order.
pub fn kind_position(kind: ObjectKind) -> (r: usize)
    ensures
        r == kind_index(kind),
        r < 18,
{
    match kind {
        ObjectKind::Table => 0,
        ObjectKind::View => 1,
        ObjectKind::Procedure => 2,
        ObjectKind::Function => 3,
        ObjectKind::PackageSpec => 4,
        ObjectKind::PackageBody => 5,
        ObjectKind::Trigger => 6,
        ObjectKind::Sequence => 7,
        ObjectKind::TypeSpec => 8,
        ObjectKind::TypeBody => 9,
        ObjectKind::Index => 10,
        ObjectKind::Synonym => 11,
        ObjectKind::MaterializedView => 12,
        ObjectKind::DatabaseLink => 13,
        ObjectKind::ObjectConstraint => 14,
        ObjectKind::RefConstraint => 15,
        ObjectKind::ObjectComment => 16,
        ObjectKind::ObjectGrant => 17,
    }
}

/// Every kind, in declaration order.
pub open spec fn all_kinds_seq() -> Seq<ObjectKind> {
    seq![ObjectKind::Table, ObjectKind::View, ObjectKind::Procedure, ObjectKind::Function, ObjectKind::PackageSpec, ObjectKind::PackageBody, ObjectKind::Trigger, ObjectKind::Sequence, ObjectKind::TypeSpec, ObjectKind::TypeBody, ObjectKind::Index, ObjectKind::Synonym, ObjectKind::MaterializedView, ObjectKind::DatabaseLink, ObjectKind::ObjectConstraint, ObjectKind::RefConstraint, ObjectKind::ObjectComment, ObjectKind::ObjectGrant]
}

/// The kinds exported by default: tables, views, procedures, functions,
/// package specs and bodies, triggers, sequences, type specs and bodies.
pub open spec fn core_kinds_seq() -> Seq<ObjectKind> {
    seq![ObjectKind::Table, ObjectKind::View, ObjectKind::Procedure, ObjectKind::Function, ObjectKind::PackageSpec, ObjectKind::PackageBody, ObjectKind::Trigger, ObjectKind::Sequence, ObjectKind::TypeSpec, ObjectKind::TypeBody]
}

/// The default set of exported kinds.
pub open spec fn core_set() -> Set<ObjectKind> {
    Set::new(|k: ObjectKind| kind_index(k) < 10)
}

fn all_kinds_vec() -> (r: Vec<ObjectKind>)
    ensures
        r@ == all_kinds_seq(),
{
    vec![ObjectKind::Table, ObjectKind::View, ObjectKind::Procedure, ObjectKind::Function, ObjectKind::PackageSpec, ObjectKind::PackageBody, ObjectKind::Trigger, ObjectKind::Sequence, ObjectKind::TypeSpec, ObjectKind::TypeBody, ObjectKind::Index, ObjectKind::Synonym, ObjectKind::MaterializedView, ObjectKind::DatabaseLink, ObjectKind::ObjectConstraint, ObjectKind::RefConstraint, ObjectKind::ObjectComment, ObjectKind::ObjectGrant]
}

fn core_kinds_vec() -> (r: Vec<ObjectKind>)
    ensures
        r@ == core_kinds_seq(),
{
    vec![ObjectKind::Table, ObjectKind::View, ObjectKind::Procedure, ObjectKind::Function, ObjectKind::PackageSpec, ObjectKind::PackageBody, ObjectKind::Trigger, ObjectKind::Sequence, ObjectKind::TypeSpec, ObjectKind::TypeBody]
}

/// The kinds a normalised selector token stands for: `all`, `core`, or a kind
/// name in singular or plural form; `None` for an unknown token.
pub open spec fn token_kinds(t: Seq<char>) -> Option<Seq<ObjectKind>> {
    if t == "all"@ {
        Some(all_kinds_seq())
    } else if t == "core"@ {
        Some(core_kinds_seq())
    } else if t == "table"@ || t == "tables"@ {
        Some(seq![ObjectKind::Table])
    } else if t == "view"@ || t == "views"@ {
        Some(seq![ObjectKind::View])
    } else if t == "procedure"@ || t == "procedures"@ {
        Some(seq![ObjectKind::Procedure])
    } else if t == "function"@ || t == "functions"@ {
        Some(seq![ObjectKind::Function])
    } else if t == "package"@ || t == "packages"@ {
        Some(seq![ObjectKind::PackageSpec, ObjectKind::PackageBody])
    } else if t == "package-spec"@ || t == "package-specs"@ {
        Some(seq![ObjectKind::PackageSpec])
    } else if t == "package-body"@ || t == "package-bodies"@ {
        Some(seq![ObjectKind::PackageBody])
    } else if t == "trigger"@ || t == "triggers"@ {
        Some(seq![ObjectKind::Trigger])
    } else if t == "sequence"@ || t == "sequences"@ {
        Some(seq![ObjectKind::Sequence])
    } else if t == "type"@ || t == "types"@ {
        Some(seq![ObjectKind::TypeSpec, ObjectKind::TypeBody])
    } else if t == "type-spec"@ || t == "type-specs"@ {
        Some(seq![ObjectKind::TypeSpec])
    } else if t == "type-body"@ || t == "type-bodies"@ {
        Some(seq![ObjectKind::TypeBody])
    } else if t == "index"@ || t == "indexes"@ || t == "indices"@ {
        Some(seq![ObjectKind::Index])
    } else if t == "synonym"@ || t == "synonyms"@ {
        Some(seq![ObjectKind::Synonym])
    } else if t == "grant"@ || t == "grants"@ || t == "object-grant"@ || t == "object-grants"@ {
        Some(seq![ObjectKind::ObjectGrant])
    } else if t == "constraint"@ || t == "constraints"@ {
        Some(seq![ObjectKind::ObjectConstraint, ObjectKind::RefConstraint])
    } else if t == "check-constraint"@ || t == "check-constraints"@ || t == "table-constraint"@ || t == "table-constraints"@ {
        Some(seq![ObjectKind::ObjectConstraint])
    } else if t == "ref-constraint"@ || t == "ref-constraints"@ || t == "foreign-key"@ || t == "foreign-keys"@ {
        Some(seq![ObjectKind::RefConstraint])
    } else if t == "comment"@ || t == "comments"@ {
        Some(seq![ObjectKind::ObjectComment])
    } else if t == "materialized-view"@ || t == "materialized-views"@ || t == "mview"@ || t == "mviews"@ {
        Some(seq![ObjectKind::MaterializedView])
    } else if t == "database-link"@ || t == "database-links"@ || t == "db-link"@ || t == "db-links"@ || t == "dblink"@ || t == "dblinks"@ {
        Some(seq![ObjectKind::DatabaseLink])
    } else if t.len() == 0 {
        Some(Seq::empty())
    } else {
        None
    }
}

/// The kinds that a normalised selector token stands for.
pub fn selector_token_kinds(t: &Vec<char>) -> (r: Option<Vec<ObjectKind>>)
    ensures
        match r {
            Some(v) => token_kinds(t@) == Some(v@),
            None => token_kinds(t@) is None,
        },
{
    if chars_equal_str(t, "all") {
        return Some(all_kinds_vec());
    }
    if chars_equal_str(t, "core") {
        return Some(core_kinds_vec());
    }
    if chars_equal_str(t, "table") || chars_equal_str(t, "tables") {
        return Some(vec![ObjectKind::Table]);
    }
    if chars_equal_str(t, "view") || chars_equal_str(t, "views") {
        return Some(vec![ObjectKind::View]);
    }
    if chars_equal_str(t, "procedure") || chars_equal_str(t, "procedures") {
        return Some(vec![ObjectKind::Procedure]);
    }
    if chars_equal_str(t, "function") || chars_equal_str(t, "functions") {
        return Some(vec![ObjectKind::Function]);
    }
    if chars_equal_str(t, "package") || chars_equal_str(t, "packages") {
        return Some(vec![ObjectKind::PackageSpec, ObjectKind::PackageBody]);
    }
    if chars_equal_str(t, "package-spec") || chars_equal_str(t, "package-specs") {
        return Some(vec![ObjectKind::PackageSpec]);
    }
    if chars_equal_str(t, "package-body") || chars_equal_str(t, "package-bodies") {
        return Some(vec![ObjectKind::PackageBody]);
    }
    if chars_equal_str(t, "trigger") || chars_equal_str(t, "triggers") {
        return Some(vec![ObjectKind::Trigger]);
    }
    if chars_equal_str(t, "sequence") || chars_equal_str(t, "sequences") {
        return Some(vec![ObjectKind::Sequence]);
    }
    if chars_equal_str(t, "type") || chars_equal_str(t, "types") {
        return Some(vec![ObjectKind::TypeSpec, ObjectKind::TypeBody]);
    }
    if chars_equal_str(t, "type-spec") || chars_equal_str(t, "type-specs") {
        return Some(vec![ObjectKind::TypeSpec]);
    }
    if chars_equal_str(t, "type-body") || chars_equal_str(t, "type-bodies") {
        return Some(vec![ObjectKind::TypeBody]);
    }
    if chars_equal_str(t, "index") || chars_equal_str(t, "indexes") || chars_equal_str(t, "indices") {
        return Some(vec![ObjectKind::Index]);
    }
    if chars_equal_str(t, "synonym") || chars_equal_str(t, "synonyms") {
        return Some(vec![ObjectKind::Synonym]);
    }
    if chars_equal_str(t, "grant") || chars_equal_str(t, "grants") || chars_equal_str(t, "object-grant") || chars_equal_str(t, "object-grants") {
        return Some(vec![ObjectKind::ObjectGrant]);
    }
    if chars_equal_str(t, "constraint") || chars_equal_str(t, "constraints") {
        return Some(vec![ObjectKind::ObjectConstraint, ObjectKind::RefConstraint]);
    }
    if chars_equal_str(t, "check-constraint") || chars_equal_str(t, "check-constraints") || chars_equal_str(t, "table-constraint") || chars_equal_str(t, "table-constraints") {
        return Some(vec![ObjectKind::ObjectConstraint]);
    }
    if chars_equal_str(t, "ref-constraint") || chars_equal_str(t, "ref-constraints") || chars_equal_str(t, "foreign-key") || chars_equal_str(t, "foreign-keys") {
        return Some(vec![ObjectKind::RefConstraint]);
    }
    if chars_equal_str(t, "comment") || chars_equal_str(t, "comments") {
        return Some(vec![ObjectKind::ObjectComment]);
    }
    if chars_equal_str(t, "materialized-view") || chars_equal_str(t, "materialized-views") || chars_equal_str(t, "mview") || chars_equal_str(t, "mviews") {
        return Some(vec![ObjectKind::MaterializedView]);
    }
    if chars_equal_str(t, "database-link") || chars_equal_str(t, "database-links") || chars_equal_str(t, "db-link") || chars_equal_str(t, "db-links") || chars_equal_str(t, "dblink") || chars_equal_str(t, "dblinks") {
        return Some(vec![ObjectKind::DatabaseLink]);
    }
    if t.len() == 0 {
        return Some(Vec::new());
    }
    None
}

/// A selector piece as a token: trimmed, ASCII-lowercased, with `_`
/// written as `-`.
pub open spec fn selector_token(piece: Seq<char>) -> Seq<char> {
    seq_ascii_lower(trim(piece)).map_values(|c: char| if c == '_' { '-' } else { c })
}

/// The token of a piece, or `None` when the token is empty.
pub open spec fn nonempty_selector_token(piece: Seq<char>) -> Option<Seq<char>> {
    if selector_token(piece).len() > 0 {
        Some(selector_token(piece))
    } else {
        None
    }
}

/// The tokens of a selector: its comma-separated pieces as tokens, empty
/// ones dropped.
pub open spec fn selector_tokens_spec(selector: Seq<char>) -> Seq<Seq<char>> {
    split_segments(selector, ',').filter_map(|p: Seq<char>| nonempty_selector_token(p))
}

/// The tokens of a list of selectors, in order.
pub open spec fn selector_list_tokens(selectors: Seq<Seq<char>>) -> Seq<Seq<char>>
    decreases selectors.len(),
{
    if selectors.len() == 0 {
        Seq::empty()
    } else {
        selector_list_tokens(selectors.drop_last()) + selector_tokens_spec(selectors.last())
    }
}

/// The views of a sequence of character vectors.
pub open spec fn char_vec_views(v: Seq<Vec<char>>) -> Seq<Seq<char>> {
    v.map_values(|x: Vec<char>| x@)
}

/// The views of a sequence of strings.
pub open spec fn string_views(v: Seq<String>) -> Seq<Seq<char>> {
    v.map_values(|x: String| x@)
}

fn selector_token_of(piece: &Vec<char>) -> (t: Vec<char>)
    ensures
        t@ == selector_token(piece@),
{
    let trimmed = chars_trim(piece);
    let lower = chars_to_ascii_lower(&trimmed);
    let mut t: Vec<char> = Vec::new();
    let n = lower.len();
    for i in 0..n
        invariant
            n == lower.len(),
            t@ == lower@.take(i as int).map_values(|c: char| if c == '_' { '-' } else { c }),
    {
        let c = lower[i];
        if c == '_' {
            t.push('-');
        } else {
            t.push(c);
        }
        assert(lower@.take(i + 1) == lower@.take(i as int).push(c));
        assert(t@ =~= lower@.take(i + 1).map_values(|c: char| if c == '_' { '-' } else { c }));
    }
    assert(lower@.take(n as int) == lower@);
    t
}

/// Splits a selector into its non-empty normalised tokens, as
/// `selector.split(',')` followed by trimming, ASCII lowercasing, `_` to `-`,
/// and dropping empty tokens.
pub fn selector_tokens(selector: &str) -> (r: Vec<Vec<char>>)
    ensures
        char_vec_views(r@) == selector_tokens_spec(selector@),
{
    let v = str_chars(selector);
    let n = v.len();
    let mut r: Vec<Vec<char>> = Vec::new();
    let mut piece: Vec<char> = Vec::new();
    let ghost f = |p: Seq<char>| nonempty_selector_token(p);
    for i in 0..n
        invariant
            n == v.len(),
            f == (|p: Seq<char>| nonempty_selector_token(p)),
            split_segments(v@.take(i as int), ',').len() >= 1,
            piece@ == split_segments(v@.take(i as int), ',').last(),
            char_vec_views(r@) == split_segments(v@.take(i as int), ',').drop_last().filter_map(f),
    {
        let ghost p = split_segments(v@.take(i as int), ',');
        assert(v@.take(i + 1).drop_last() == v@.take(i as int));
        let c = v[i];
        if c == ',' {
            let ghost r_before = char_vec_views(r@);
            let t = selector_token_of(&piece);
            assert(f(p.last()) == nonempty_selector_token(piece@));
            if t.len() > 0 {
                r.push(t);
                assert(char_vec_views(r@) =~= r_before + seq![selector_token(piece@)]);
            } else {
                assert(char_vec_views(r@) =~= r_before);
            }
            proof {
                let q = split_segments(v@.take(i + 1), ',');
                assert(q.drop_last() == p);
                assert(p.filter_map(f) == p.drop_last().filter_map(f) + match f(p.last()) {
                    Some(x) => seq![x],
                    None => Seq::empty(),
                });
            }
            piece = Vec::new();
        } else {
            piece.push(c);
            proof {
                let q = split_segments(v@.take(i + 1), ',');
                assert(q.drop_last() =~= p.drop_last());
            }
        }
    }
    assert(v@.take(n as int) == v@);
    let t = selector_token_of(&piece);
    let ghost r_before = char_vec_views(r@);
    let ghost p = split_segments(v@, ',');
    assert(f(p.last()) == nonempty_selector_token(piece@));
    if t.len() > 0 {
        r.push(t);
        assert(char_vec_views(r@) =~= r_before + seq![selector_token(piece@)]);
    } else {
        assert(char_vec_views(r@) =~= r_before);
    }
    assert(p.filter_map(f) == p.drop_last().filter_map(f) + match f(p.last()) {
        Some(x) => seq![x],
        None => Seq::empty(),
    });
    r
}

/// Whether the token `t` stands for the kind `k`.
pub open spec fn token_selects(t: Seq<char>, k: ObjectKind) -> bool {
    match token_kinds(t) {
        Some(ks) => ks.contains(k),
        None => false,
    }
}

/// Whether some token of `tokens` stands for the kind `k`.
pub open spec fn selected_by(tokens: Seq<Seq<char>>, k: ObjectKind) -> bool {
    exists|i: int| 0 <= i < tokens.len() && #[trigger] token_selects(tokens[i], k)
}

/// The first token of `tokens` that stands for no kind, if any.
pub open spec fn first_invalid_token(tokens: Seq<Seq<char>>) -> Option<Seq<char>>
    decreases tokens.len(),
{
    if tokens.len() == 0 {
        None
    } else if token_kinds(tokens[0]) is None {
        Some(tokens[0])
    } else {
        first_invalid_token(tokens.skip(1))
    }
}

/// Every selector name stands for its kinds, in singular and plural form:
/// `all` for every kind, `core` for the core kinds, a family name for all its
/// members, and a kind name for that kind alone.
pub proof fn lemma_selector_token_kinds()
    ensures
        token_kinds("all"@) == Some(all_kinds_seq()),
        token_kinds("core"@) == Some(core_kinds_seq()),
        token_kinds("table"@) == Some(seq![ObjectKind::Table]),
        token_kinds("tables"@) == Some(seq![ObjectKind::Table]),
        token_kinds("view"@) == Some(seq![ObjectKind::View]),
        token_kinds("views"@) == Some(seq![ObjectKind::View]),
        token_kinds("procedure"@) == Some(seq![ObjectKind::Procedure]),
        token_kinds("procedures"@) == Some(seq![ObjectKind::Procedure]),
        token_kinds("function"@) == Some(seq![ObjectKind::Function]),
        token_kinds("functions"@) == Some(seq![ObjectKind::Function]),
        token_kinds("package"@) == Some(seq![ObjectKind::PackageSpec, ObjectKind::PackageBody]),
        token_kinds("packages"@) == Some(seq![ObjectKind::PackageSpec, ObjectKind::PackageBody]),
        token_kinds("package-spec"@) == Some(seq![ObjectKind::PackageSpec]),
        token_kinds("package-specs"@) == Some(seq![ObjectKind::PackageSpec]),
        token_kinds("package-body"@) == Some(seq![ObjectKind::PackageBody]),
        token_kinds("package-bodies"@) == Some(seq![ObjectKind::PackageBody]),
        token_kinds("trigger"@) == Some(seq![ObjectKind::Trigger]),
        token_kinds("triggers"@) == Some(seq![ObjectKind::Trigger]),
        token_kinds("sequence"@) == Some(seq![ObjectKind::Sequence]),
        token_kinds("sequences"@) == Some(seq![ObjectKind::Sequence]),
        token_kinds("type"@) == Some(seq![ObjectKind::TypeSpec, ObjectKind::TypeBody]),
        token_kinds("types"@) == Some(seq![ObjectKind::TypeSpec, ObjectKind::TypeBody]),
        token_kinds("type-spec"@) == Some(seq![ObjectKind::TypeSpec]),
        token_kinds("type-specs"@) == Some(seq![ObjectKind::TypeSpec]),
        token_kinds("type-body"@) == Some(seq![ObjectKind::TypeBody]),
        token_kinds("type-bodies"@) == Some(seq![ObjectKind::TypeBody]),
        token_kinds("index"@) == Some(seq![ObjectKind::Index]),
        token_kinds("indexes"@) == Some(seq![ObjectKind::Index]),
        token_kinds("indices"@) == Some(seq![ObjectKind::Index]),
        token_kinds("synonym"@) == Some(seq![ObjectKind::Synonym]),
        token_kinds("synonyms"@) == Some(seq![ObjectKind::Synonym]),
        token_kinds("grant"@) == Some(seq![ObjectKind::ObjectGrant]),
        token_kinds("grants"@) == Some(seq![ObjectKind::ObjectGrant]),
        token_kinds("object-grant"@) == Some(seq![ObjectKind::ObjectGrant]),
        token_kinds("object-grants"@) == Some(seq![ObjectKind::ObjectGrant]),
        token_kinds("constraint"@) == Some(seq![ObjectKind::ObjectConstraint, ObjectKind::RefConstraint]),
        token_kinds("constraints"@) == Some(seq![ObjectKind::ObjectConstraint, ObjectKind::RefConstraint]),
        token_kinds("check-constraint"@) == Some(seq![ObjectKind::ObjectConstraint]),
        token_kinds("check-constraints"@) == Some(seq![ObjectKind::ObjectConstraint]),
        token_kinds("table-constraint"@) == Some(seq![ObjectKind::ObjectConstraint]),
        token_kinds("table-constraints"@) == Some(seq![ObjectKind::ObjectConstraint]),
        token_kinds("ref-constraint"@) == Some(seq![ObjectKind::RefConstraint]),
        token_kinds("ref-constraints"@) == Some(seq![ObjectKind::RefConstraint]),
        token_kinds("foreign-key"@) == Some(seq![ObjectKind::RefConstraint]),
        token_kinds("foreign-keys"@) == Some(seq![ObjectKind::RefConstraint]),
        token_kinds("comment"@) == Some(seq![ObjectKind::ObjectComment]),
        token_kinds("comments"@) == Some(seq![ObjectKind::ObjectComment]),
        token_kinds("materialized-view"@) == Some(seq![ObjectKind::MaterializedView]),
        token_kinds("materialized-views"@) == Some(seq![ObjectKind::MaterializedView]),
        token_kinds("mview"@) == Some(seq![ObjectKind::MaterializedView]),
        token_kinds("mviews"@) == Some(seq![ObjectKind::MaterializedView]),
        token_kinds("database-link"@) == Some(seq![ObjectKind::DatabaseLink]),
        token_kinds("database-links"@) == Some(seq![ObjectKind::DatabaseLink]),
        token_kinds("db-link"@) == Some(seq![ObjectKind::DatabaseLink]),
        token_kinds("db-links"@) == Some(seq![ObjectKind::DatabaseLink]),
        token_kinds("dblink"@) == Some(seq![ObjectKind::DatabaseLink]),
        token_kinds("dblinks"@) == Some(seq![ObjectKind::DatabaseLink]),
{
    reveal_strlit("all");
    assert("all"@.len() == 3);
    assert("all"@[0] == 'a');
    assert("all"@[1] == 'l');
    assert("all"@[2] == 'l');
    reveal_strlit("core");
    assert("core"@.len() == 4);
    assert("core"@[0] == 'c');
    assert("core"@[1] == 'o');
    assert("core"@[2] == 'r');
    assert("core"@[3] == 'e');
    reveal_strlit("table");
    assert("table"@.len() == 5);
    assert("table"@[0] == 't');
    assert("table"@[1] == 'a');
    assert("table"@[2] == 'b');
    assert("table"@[3] == 'l');
    assert("table"@[4] == 'e');
    reveal_strlit("tables");
    assert("tables"@.len() == 6);
    assert("tables"@[0] == 't');
    assert("tables"@[1] == 'a');
    assert("tables"@[2] == 'b');
    assert("tables"@[3] == 'l');
    assert("tables"@[4] == 'e');
    assert("tables"@[5] == 's');
    reveal_strlit("view");
    assert("view"@.len() == 4);
    assert("view"@[0] == 'v');
    assert("view"@[1] == 'i');
    assert("view"@[2] == 'e');
    assert("view"@[3] == 'w');
    reveal_strlit("views");
    assert("views"@.len() == 5);
    assert("views"@[0] == 'v');
    assert("views"@[1] == 'i');
    assert("views"@[2] == 'e');
    assert("views"@[3] == 'w');
    assert("views"@[4] == 's');
    reveal_strlit("procedure");
    assert("procedure"@.len() == 9);
    assert("procedure"@[0] == 'p');
    assert("procedure"@[1] == 'r');
    assert("procedure"@[2] == 'o');
    assert("procedure"@[3] == 'c');
    assert("procedure"@[4] == 'e');
    assert("procedure"@[5] == 'd');
    assert("procedure"@[6] == 'u');
    assert("procedure"@[7] == 'r');
    assert("procedure"@[8] == 'e');
    reveal_strlit("procedures");
    assert("procedures"@.len() == 10);
    assert("procedures"@[0] == 'p');
    assert("procedures"@[1] == 'r');
    assert("procedures"@[2] == 'o');
    assert("procedures"@[3] == 'c');
    assert("procedures"@[4] == 'e');
    assert("procedures"@[5] == 'd');
    assert("procedures"@[6] == 'u');
    assert("procedures"@[7] == 'r');
    assert("procedures"@[8] == 'e');
    assert("procedures"@[9] == 's');
    reveal_strlit("function");
    assert("function"@.len() == 8);
    assert("function"@[0] == 'f');
    assert("function"@[1] == 'u');
    assert("function"@[2] == 'n');
    assert("function"@[3] == 'c');
    assert("function"@[4] == 't');
    assert("function"@[5] == 'i');
    assert("function"@[6] == 'o');
    assert("function"@[7] == 'n');
    reveal_strlit("functions");
    assert("functions"@.len() == 9);
    assert("functions"@[0] == 'f');
    assert("functions"@[1] == 'u');
    assert("functions"@[2] == 'n');
    assert("functions"@[3] == 'c');
    assert("functions"@[4] == 't');
    assert("functions"@[5] == 'i');
    assert("functions"@[6] == 'o');
    assert("functions"@[7] == 'n');
    assert("functions"@[8] == 's');
    reveal_strlit("package");
    assert("package"@.len() == 7);
    assert("package"@[0] == 'p');
    assert("package"@[1] == 'a');
    assert("package"@[2] == 'c');
    assert("package"@[3] == 'k');
    assert("package"@[4] == 'a');
    assert("package"@[5] == 'g');
    assert("package"@[6] == 'e');
    reveal_strlit("packages");
    assert("packages"@.len() == 8);
    assert("packages"@[0] == 'p');
    assert("packages"@[1] == 'a');
    assert("packages"@[2] == 'c');
    assert("packages"@[3] == 'k');
    assert("packages"@[4] == 'a');
    assert("packages"@[5] == 'g');
    assert("packages"@[6] == 'e');
    assert("packages"@[7] == 's');
    reveal_strlit("package-spec");
    assert("package-spec"@.len() == 12);
    assert("package-spec"@[0] == 'p');
    assert("package-spec"@[1] == 'a');
    assert("package-spec"@[2] == 'c');
    assert("package-spec"@[3] == 'k');
    assert("package-spec"@[4] == 'a');
    assert("package-spec"@[5] == 'g');
    assert("package-spec"@[6] == 'e');
    assert("package-spec"@[7] == '-');
    assert("package-spec"@[8] == 's');
    assert("package-spec"@[9] == 'p');
    assert("package-spec"@[10] == 'e');
    assert("package-spec"@[11] == 'c');
    reveal_strlit("package-specs");
    assert("package-specs"@.len() == 13);
    assert("package-specs"@[0] == 'p');
    assert("package-specs"@[1] == 'a');
    assert("package-specs"@[2] == 'c');
    assert("package-specs"@[3] == 'k');
    assert("package-specs"@[4] == 'a');
    assert("package-specs"@[5] == 'g');
    assert("package-specs"@[6] == 'e');
    assert("package-specs"@[7] == '-');
    assert("package-specs"@[8] == 's');
    assert("package-specs"@[9] == 'p');
    assert("package-specs"@[10] == 'e');
    assert("package-specs"@[11] == 'c');
    assert("package-specs"@[12] == 's');
    reveal_strlit("package-body");
    assert("package-body"@.len() == 12);
    assert("package-body"@[0] == 'p');
    assert("package-body"@[1] == 'a');
    assert("package-body"@[2] == 'c');
    assert("package-body"@[3] == 'k');
    assert("package-body"@[4] == 'a');
    assert("package-body"@[5] == 'g');
    assert("package-body"@[6] == 'e');
    assert("package-body"@[7] == '-');
    assert("package-body"@[8] == 'b');
    assert("package-body"@[9] == 'o');
    assert("package-body"@[10] == 'd');
    assert("package-body"@[11] == 'y');
    reveal_strlit("package-bodies");
    assert("package-bodies"@.len() == 14);
    assert("package-bodies"@[0] == 'p');
    assert("package-bodies"@[1] == 'a');
    assert("package-bodies"@[2] == 'c');
    assert("package-bodies"@[3] == 'k');
    assert("package-bodies"@[4] == 'a');
    assert("package-bodies"@[5] == 'g');
    assert("package-bodies"@[6] == 'e');
    assert("package-bodies"@[7] == '-');
    assert("package-bodies"@[8] == 'b');
    assert("package-bodies"@[9] == 'o');
    assert("package-bodies"@[10] == 'd');
    assert("package-bodies"@[11] == 'i');
    assert("package-bodies"@[12] == 'e');
    assert("package-bodies"@[13] == 's');
    reveal_strlit("trigger");
    assert("trigger"@.len() == 7);
    assert("trigger"@[0] == 't');
    assert("trigger"@[1] == 'r');
    assert("trigger"@[2] == 'i');
    assert("trigger"@[3] == 'g');
    assert("trigger"@[4] == 'g');
    assert("trigger"@[5] == 'e');
    assert("trigger"@[6] == 'r');
    reveal_strlit("triggers");
    assert("triggers"@.len() == 8);
    assert("triggers"@[0] == 't');
    assert("triggers"@[1] == 'r');
    assert("triggers"@[2] == 'i');
    assert("triggers"@[3] == 'g');
    assert("triggers"@[4] == 'g');
    assert("triggers"@[5] == 'e');
    assert("triggers"@[6] == 'r');
    assert("triggers"@[7] == 's');
    reveal_strlit("sequence");
    assert("sequence"@.len() == 8);
    assert("sequence"@[0] == 's');
    assert("sequence"@[1] == 'e');
    assert("sequence"@[2] == 'q');
    assert("sequence"@[3] == 'u');
    assert("sequence"@[4] == 'e');
    assert("sequence"@[5] == 'n');
    assert("sequence"@[6] == 'c');
    assert("sequence"@[7] == 'e');
    reveal_strlit("sequences");
    assert("sequences"@.len() == 9);
    assert("sequences"@[0] == 's');
    assert("sequences"@[1] == 'e');
    assert("sequences"@[2] == 'q');
    assert("sequences"@[3] == 'u');
    assert("sequences"@[4] == 'e');
    assert("sequences"@[5] == 'n');
    assert("sequences"@[6] == 'c');
    assert("sequences"@[7] == 'e');
    assert("sequences"@[8] == 's');
    reveal_strlit("type");
    assert("type"@.len() == 4);
    assert("type"@[0] == 't');
    assert("type"@[1] == 'y');
    assert("type"@[2] == 'p');
    assert("type"@[3] == 'e');
    reveal_strlit("types");
    assert("types"@.len() == 5);
    assert("types"@[0] == 't');
    assert("types"@[1] == 'y');
    assert("types"@[2] == 'p');
    assert("types"@[3] == 'e');
    assert("types"@[4] == 's');
    reveal_strlit("type-spec");
    assert("type-spec"@.len() == 9);
    assert("type-spec"@[0] == 't');
    assert("type-spec"@[1] == 'y');
    assert("type-spec"@[2] == 'p');
    assert("type-spec"@[3] == 'e');
    assert("type-spec"@[4] == '-');
    assert("type-spec"@[5] == 's');
    assert("type-spec"@[6] == 'p');
    assert("type-spec"@[7] == 'e');
    assert("type-spec"@[8] == 'c');
    reveal_strlit("type-specs");
    assert("type-specs"@.len() == 10);
    assert("type-specs"@[0] == 't');
    assert("type-specs"@[1] == 'y');
    assert("type-specs"@[2] == 'p');
    assert("type-specs"@[3] == 'e');
    assert("type-specs"@[4] == '-');
    assert("type-specs"@[5] == 's');
    assert("type-specs"@[6] == 'p');
    assert("type-specs"@[7] == 'e');
    assert("type-specs"@[8] == 'c');
    assert("type-specs"@[9] == 's');
    reveal_strlit("type-body");
    assert("type-body"@.len() == 9);
    assert("type-body"@[0] == 't');
    assert("type-body"@[1] == 'y');
    assert("type-body"@[2] == 'p');
    assert("type-body"@[3] == 'e');
    assert("type-body"@[4] == '-');
    assert("type-body"@[5] == 'b');
    assert("type-body"@[6] == 'o');
    assert("type-body"@[7] == 'd');
    assert("type-body"@[8] == 'y');
    reveal_strlit("type-bodies");
    assert("type-bodies"@.len() == 11);
    assert("type-bodies"@[0] == 't');
    assert("type-bodies"@[1] == 'y');
    assert("type-bodies"@[2] == 'p');
    assert("type-bodies"@[3] == 'e');
    assert("type-bodies"@[4] == '-');
    assert("type-bodies"@[5] == 'b');
    assert("type-bodies"@[6] == 'o');
    assert("type-bodies"@[7] == 'd');
    assert("type-bodies"@[8] == 'i');
    assert("type-bodies"@[9] == 'e');
    assert("type-bodies"@[10] == 's');
    reveal_strlit("index");
    assert("index"@.len() == 5);
    assert("index"@[0] == 'i');
    assert("index"@[1] == 'n');
    assert("index"@[2] == 'd');
    assert("index"@[3] == 'e');
    assert("index"@[4] == 'x');
    reveal_strlit("indexes");
    assert("indexes"@.len() == 7);
    assert("indexes"@[0] == 'i');
    assert("indexes"@[1] == 'n');
    assert("indexes"@[2] == 'd');
    assert("indexes"@[3] == 'e');
    assert("indexes"@[4] == 'x');
    assert("indexes"@[5] == 'e');
    assert("indexes"@[6] == 's');
    reveal_strlit("indices");
    assert("indices"@.len() == 7);
    assert("indices"@[0] == 'i');
    assert("indices"@[1] == 'n');
    assert("indices"@[2] == 'd');
    assert("indices"@[3] == 'i');
    assert("indices"@[4] == 'c');
    assert("indices"@[5] == 'e');
    assert("indices"@[6] == 's');
    reveal_strlit("synonym");
    assert("synonym"@.len() == 7);
    assert("synonym"@[0] == 's');
    assert("synonym"@[1] == 'y');
    assert("synonym"@[2] == 'n');
    assert("synonym"@[3] == 'o');
    assert("synonym"@[4] == 'n');
    assert("synonym"@[5] == 'y');
    assert("synonym"@[6] == 'm');
    reveal_strlit("synonyms");
    assert("synonyms"@.len() == 8);
    assert("synonyms"@[0] == 's');
    assert("synonyms"@[1] == 'y');
    assert("synonyms"@[2] == 'n');
    assert("synonyms"@[3] == 'o');
    assert("synonyms"@[4] == 'n');
    assert("synonyms"@[5] == 'y');
    assert("synonyms"@[6] == 'm');
    assert("synonyms"@[7] == 's');
    reveal_strlit("grant");
    assert("grant"@.len() == 5);
    assert("grant"@[0] == 'g');
    assert("grant"@[1] == 'r');
    assert("grant"@[2] == 'a');
    assert("grant"@[3] == 'n');
    assert("grant"@[4] == 't');
    reveal_strlit("grants");
    assert("grants"@.len() == 6);
    assert("grants"@[0] == 'g');
    assert("grants"@[1] == 'r');
    assert("grants"@[2] == 'a');
    assert("grants"@[3] == 'n');
    assert("grants"@[4] == 't');
    assert("grants"@[5] == 's');
    reveal_strlit("object-grant");
    assert("object-grant"@.len() == 12);
    assert("object-grant"@[0] == 'o');
    assert("object-grant"@[1] == 'b');
    assert("object-grant"@[2] == 'j');
    assert("object-grant"@[3] == 'e');
    assert("object-grant"@[4] == 'c');
    assert("object-grant"@[5] == 't');
    assert("object-grant"@[6] == '-');
    assert("object-grant"@[7] == 'g');
    assert("object-grant"@[8] == 'r');
    assert("object-grant"@[9] == 'a');
    assert("object-grant"@[10] == 'n');
    assert("object-grant"@[11] == 't');
    reveal_strlit("object-grants");
    assert("object-grants"@.len() == 13);
    assert("object-grants"@[0] == 'o');
    assert("object-grants"@[1] == 'b');
    assert("object-grants"@[2] == 'j');
    assert("object-grants"@[3] == 'e');
    assert("object-grants"@[4] == 'c');
    assert("object-grants"@[5] == 't');
    assert("object-grants"@[6] == '-');
    assert("object-grants"@[7] == 'g');
    assert("object-grants"@[8] == 'r');
    assert("object-grants"@[9] == 'a');
    assert("object-grants"@[10] == 'n');
    assert("object-grants"@[11] == 't');
    assert("object-grants"@[12] == 's');
    reveal_strlit("constraint");
    assert("constraint"@.len() == 10);
    assert("constraint"@[0] == 'c');
    assert("constraint"@[1] == 'o');
    assert("constraint"@[2] == 'n');
    assert("constraint"@[3] == 's');
    assert("constraint"@[4] == 't');
    assert("constraint"@[5] == 'r');
    assert("constraint"@[6] == 'a');
    assert("constraint"@[7] == 'i');
    assert("constraint"@[8] == 'n');
    assert("constraint"@[9] == 't');
    reveal_strlit("constraints");
    assert("constraints"@.len() == 11);
    assert("constraints"@[0] == 'c');
    assert("constraints"@[1] == 'o');
    assert("constraints"@[2] == 'n');
    assert("constraints"@[3] == 's');
    assert("constraints"@[4] == 't');
    assert("constraints"@[5] == 'r');
    assert("constraints"@[6] == 'a');
    assert("constraints"@[7] == 'i');
    assert("constraints"@[8] == 'n');
    assert("constraints"@[9] == 't');
    assert("constraints"@[10] == 's');
    reveal_strlit("check-constraint");
    assert("check-constraint"@.len() == 16);
    assert("check-constraint"@[0] == 'c');
    assert("check-constraint"@[1] == 'h');
    assert("check-constraint"@[2] == 'e');
    assert("check-constraint"@[3] == 'c');
    assert("check-constraint"@[4] == 'k');
    assert("check-constraint"@[5] == '-');
    assert("check-constraint"@[6] == 'c');
    assert("check-constraint"@[7] == 'o');
    assert("check-constraint"@[8] == 'n');
    assert("check-constraint"@[9] == 's');
    assert("check-constraint"@[10] == 't');
    assert("check-constraint"@[11] == 'r');
    assert("check-constraint"@[12] == 'a');
    assert("check-constraint"@[13] == 'i');
    assert("check-constraint"@[14] == 'n');
    assert("check-constraint"@[15] == 't');
    reveal_strlit("check-constraints");
    assert("check-constraints"@.len() == 17);
    assert("check-constraints"@[0] == 'c');
    assert("check-constraints"@[1] == 'h');
    assert("check-constraints"@[2] == 'e');
    assert("check-constraints"@[3] == 'c');
    assert("check-constraints"@[4] == 'k');
    assert("check-constraints"@[5] == '-');
    assert("check-constraints"@[6] == 'c');
    assert("check-constraints"@[7] == 'o');
    assert("check-constraints"@[8] == 'n');
    assert("check-constraints"@[9] == 's');
    assert("check-constraints"@[10] == 't');
    assert("check-constraints"@[11] == 'r');
    assert("check-constraints"@[12] == 'a');
    assert("check-constraints"@[13] == 'i');
    assert("check-constraints"@[14] == 'n');
    assert("check-constraints"@[15] == 't');
    assert("check-constraints"@[16] == 's');
    reveal_strlit("table-constraint");
    assert("table-constraint"@.len() == 16);
    assert("table-constraint"@[0] == 't');
    assert("table-constraint"@[1] == 'a');
    assert("table-constraint"@[2] == 'b');
    assert("table-constraint"@[3] == 'l');
    assert("table-constraint"@[4] == 'e');
    assert("table-constraint"@[5] == '-');
    assert("table-constraint"@[6] == 'c');
    assert("table-constraint"@[7] == 'o');
    assert("table-constraint"@[8] == 'n');
    assert("table-constraint"@[9] == 's');
    assert("table-constraint"@[10] == 't');
    assert("table-constraint"@[11] == 'r');
    assert("table-constraint"@[12] == 'a');
    assert("table-constraint"@[13] == 'i');
    assert("table-constraint"@[14] == 'n');
    assert("table-constraint"@[15] == 't');
    reveal_strlit("table-constraints");
    assert("table-constraints"@.len() == 17);
    assert("table-constraints"@[0] == 't');
    assert("table-constraints"@[1] == 'a');
    assert("table-constraints"@[2] == 'b');
    assert("table-constraints"@[3] == 'l');
    assert("table-constraints"@[4] == 'e');
    assert("table-constraints"@[5] == '-');
    assert("table-constraints"@[6] == 'c');
    assert("table-constraints"@[7] == 'o');
    assert("table-constraints"@[8] == 'n');
    assert("table-constraints"@[9] == 's');
    assert("table-constraints"@[10] == 't');
    assert("table-constraints"@[11] == 'r');
    assert("table-constraints"@[12] == 'a');
    assert("table-constraints"@[13] == 'i');
    assert("table-constraints"@[14] == 'n');
    assert("table-constraints"@[15] == 't');
    assert("table-constraints"@[16] == 's');
    reveal_strlit("ref-constraint");
    assert("ref-constraint"@.len() == 14);
    assert("ref-constraint"@[0] == 'r');
    assert("ref-constraint"@[1] == 'e');
    assert("ref-constraint"@[2] == 'f');
    assert("ref-constraint"@[3] == '-');
    assert("ref-constraint"@[4] == 'c');
    assert("ref-constraint"@[5] == 'o');
    assert("ref-constraint"@[6] == 'n');
    assert("ref-constraint"@[7] == 's');
    assert("ref-constraint"@[8] == 't');
    assert("ref-constraint"@[9] == 'r');
    assert("ref-constraint"@[10] == 'a');
    assert("ref-constraint"@[11] == 'i');
    assert("ref-constraint"@[12] == 'n');
    assert("ref-constraint"@[13] == 't');
    reveal_strlit("ref-constraints");
    assert("ref-constraints"@.len() == 15);
    assert("ref-constraints"@[0] == 'r');
    assert("ref-constraints"@[1] == 'e');
    assert("ref-constraints"@[2] == 'f');
    assert("ref-constraints"@[3] == '-');
    assert("ref-constraints"@[4] == 'c');
    assert("ref-constraints"@[5] == 'o');
    assert("ref-constraints"@[6] == 'n');
    assert("ref-constraints"@[7] == 's');
    assert("ref-constraints"@[8] == 't');
    assert("ref-constraints"@[9] == 'r');
    assert("ref-constraints"@[10] == 'a');
    assert("ref-constraints"@[11] == 'i');
    assert("ref-constraints"@[12] == 'n');
    assert("ref-constraints"@[13] == 't');
    assert("ref-constraints"@[14] == 's');
    reveal_strlit("foreign-key");
    assert("foreign-key"@.len() == 11);
    assert("foreign-key"@[0] == 'f');
    assert("foreign-key"@[1] == 'o');
    assert("foreign-key"@[2] == 'r');
    assert("foreign-key"@[3] == 'e');
    assert("foreign-key"@[4] == 'i');
    assert("foreign-key"@[5] == 'g');
    assert("foreign-key"@[6] == 'n');
    assert("foreign-key"@[7] == '-');
    assert("foreign-key"@[8] == 'k');
    assert("foreign-key"@[9] == 'e');
    assert("foreign-key"@[10] == 'y');
    reveal_strlit("foreign-keys");
    assert("foreign-keys"@.len() == 12);
    assert("foreign-keys"@[0] == 'f');
    assert("foreign-keys"@[1] == 'o');
    assert("foreign-keys"@[2] == 'r');
    assert("foreign-keys"@[3] == 'e');
    assert("foreign-keys"@[4] == 'i');
    assert("foreign-keys"@[5] == 'g');
    assert("foreign-keys"@[6] == 'n');
    assert("foreign-keys"@[7] == '-');
    assert("foreign-keys"@[8] == 'k');
    assert("foreign-keys"@[9] == 'e');
    assert("foreign-keys"@[10] == 'y');
    assert("foreign-keys"@[11] == 's');
    reveal_strlit("comment");
    assert("comment"@.len() == 7);
    assert("comment"@[0] == 'c');
    assert("comment"@[1] == 'o');
    assert("comment"@[2] == 'm');
    assert("comment"@[3] == 'm');
    assert("comment"@[4] == 'e');
    assert("comment"@[5] == 'n');
    assert("comment"@[6] == 't');
    reveal_strlit("comments");
    assert("comments"@.len() == 8);
    assert("comments"@[0] == 'c');
    assert("comments"@[1] == 'o');
    assert("comments"@[2] == 'm');
    assert("comments"@[3] == 'm');
    assert("comments"@[4] == 'e');
    assert("comments"@[5] == 'n');
    assert("comments"@[6] == 't');
    assert("comments"@[7] == 's');
    reveal_strlit("materialized-view");
    assert("materialized-view"@.len() == 17);
    assert("materialized-view"@[0] == 'm');
    assert("materialized-view"@[1] == 'a');
    assert("materialized-view"@[2] == 't');
    assert("materialized-view"@[3] == 'e');
    assert("materialized-view"@[4] == 'r');
    assert("materialized-view"@[5] == 'i');
    assert("materialized-view"@[6] == 'a');
    assert("materialized-view"@[7] == 'l');
    assert("materialized-view"@[8] == 'i');
    assert("materialized-view"@[9] == 'z');
    assert("materialized-view"@[10] == 'e');
    assert("materialized-view"@[11] == 'd');
    assert("materialized-view"@[12] == '-');
    assert("materialized-view"@[13] == 'v');
    assert("materialized-view"@[14] == 'i');
    assert("materialized-view"@[15] == 'e');
    assert("materialized-view"@[16] == 'w');
    reveal_strlit("materialized-views");
    assert("materialized-views"@.len() == 18);
    assert("materialized-views"@[0] == 'm');
    assert("materialized-views"@[1] == 'a');
    assert("materialized-views"@[2] == 't');
    assert("materialized-views"@[3] == 'e');
    assert("materialized-views"@[4] == 'r');
    assert("materialized-views"@[5] == 'i');
    assert("materialized-views"@[6] == 'a');
    assert("materialized-views"@[7] == 'l');
    assert("materialized-views"@[8] == 'i');
    assert("materialized-views"@[9] == 'z');
    assert("materialized-views"@[10] == 'e');
    assert("materialized-views"@[11] == 'd');
    assert("materialized-views"@[12] == '-');
    assert("materialized-views"@[13] == 'v');
    assert("materialized-views"@[14] == 'i');
    assert("materialized-views"@[15] == 'e');
    assert("materialized-views"@[16] == 'w');
    assert("materialized-views"@[17] == 's');
    reveal_strlit("mview");
    assert("mview"@.len() == 5);
    assert("mview"@[0] == 'm');
    assert("mview"@[1] == 'v');
    assert("mview"@[2] == 'i');
    assert("mview"@[3] == 'e');
    assert("mview"@[4] == 'w');
    reveal_strlit("mviews");
    assert("mviews"@.len() == 6);
    assert("mviews"@[0] == 'm');
    assert("mviews"@[1] == 'v');
    assert("mviews"@[2] == 'i');
    assert("mviews"@[3] == 'e');
    assert("mviews"@[4] == 'w');
    assert("mviews"@[5] == 's');
    reveal_strlit("database-link");
    assert("database-link"@.len() == 13);
    assert("database-link"@[0] == 'd');
    assert("database-link"@[1] == 'a');
    assert("database-link"@[2] == 't');
    assert("database-link"@[3] == 'a');
    assert("database-link"@[4] == 'b');
    assert("database-link"@[5] == 'a');
    assert("database-link"@[6] == 's');
    assert("database-link"@[7] == 'e');
    assert("database-link"@[8] == '-');
    assert("database-link"@[9] == 'l');
    assert("database-link"@[10] == 'i');
    assert("database-link"@[11] == 'n');
    assert("database-link"@[12] == 'k');
    reveal_strlit("database-links");
    assert("database-links"@.len() == 14);
    assert("database-links"@[0] == 'd');
    assert("database-links"@[1] == 'a');
    assert("database-links"@[2] == 't');
    assert("database-links"@[3] == 'a');
    assert("database-links"@[4] == 'b');
    assert("database-links"@[5] == 'a');
    assert("database-links"@[6] == 's');
    assert("database-links"@[7] == 'e');
    assert("database-links"@[8] == '-');
    assert("database-links"@[9] == 'l');
    assert("database-links"@[10] == 'i');
    assert("database-links"@[11] == 'n');
    assert("database-links"@[12] == 'k');
    assert("database-links"@[13] == 's');
    reveal_strlit("db-link");
    assert("db-link"@.len() == 7);
    assert("db-link"@[0] == 'd');
    assert("db-link"@[1] == 'b');
    assert("db-link"@[2] == '-');
    assert("db-link"@[3] == 'l');
    assert("db-link"@[4] == 'i');
    assert("db-link"@[5] == 'n');
    assert("db-link"@[6] == 'k');
    reveal_strlit("db-links");
    assert("db-links"@.len() == 8);
    assert("db-links"@[0] == 'd');
    assert("db-links"@[1] == 'b');
    assert("db-links"@[2] == '-');
    assert("db-links"@[3] == 'l');
    assert("db-links"@[4] == 'i');
    assert("db-links"@[5] == 'n');
    assert("db-links"@[6] == 'k');
    assert("db-links"@[7] == 's');
    reveal_strlit("dblink");
    assert("dblink"@.len() == 6);
    assert("dblink"@[0] == 'd');
    assert("dblink"@[1] == 'b');
    assert("dblink"@[2] == 'l');
    assert("dblink"@[3] == 'i');
    assert("dblink"@[4] == 'n');
    assert("dblink"@[5] == 'k');
    reveal_strlit("dblinks");
    assert("dblinks"@.len() == 7);
    assert("dblinks"@[0] == 'd');
    assert("dblinks"@[1] == 'b');
    assert("dblinks"@[2] == 'l');
    assert("dblinks"@[3] == 'i');
    assert("dblinks"@[4] == 'n');
    assert("dblinks"@[5] == 'k');
    assert("dblinks"@[6] == 's');
}

/// A family selector stands for all its members and a member selector for
/// its member alone, in singular and plural form: `package(s)` for package
/// specs and bodies, `type(s)` for type specs and bodies, `constraint(s)` for
/// table and referential constraints.
pub proof fn lemma_family_selectors(k: ObjectKind)
    ensures
        token_selects("package"@, k) == (k == ObjectKind::PackageSpec || k == ObjectKind::PackageBody),
        token_selects("packages"@, k) == (k == ObjectKind::PackageSpec || k == ObjectKind::PackageBody),
        token_selects("package-spec"@, k) == (k == ObjectKind::PackageSpec),
        token_selects("package-specs"@, k) == (k == ObjectKind::PackageSpec),
        token_selects("package-body"@, k) == (k == ObjectKind::PackageBody),
        token_selects("package-bodies"@, k) == (k == ObjectKind::PackageBody),
        token_selects("type"@, k) == (k == ObjectKind::TypeSpec || k == ObjectKind::TypeBody),
        token_selects("types"@, k) == (k == ObjectKind::TypeSpec || k == ObjectKind::TypeBody),
        token_selects("type-spec"@, k) == (k == ObjectKind::TypeSpec),
        token_selects("type-specs"@, k) == (k == ObjectKind::TypeSpec),
        token_selects("type-body"@, k) == (k == ObjectKind::TypeBody),
        token_selects("type-bodies"@, k) == (k == ObjectKind::TypeBody),
        token_selects("constraint"@, k) == (k == ObjectKind::ObjectConstraint || k == ObjectKind::RefConstraint),
        token_selects("constraints"@, k) == (k == ObjectKind::ObjectConstraint || k == ObjectKind::RefConstraint),
        token_selects("check-constraint"@, k) == (k == ObjectKind::ObjectConstraint),
        token_selects("check-constraints"@, k) == (k == ObjectKind::ObjectConstraint),
        token_selects("table-constraint"@, k) == (k == ObjectKind::ObjectConstraint),
        token_selects("table-constraints"@, k) == (k == ObjectKind::ObjectConstraint),
        token_selects("ref-constraint"@, k) == (k == ObjectKind::RefConstraint),
        token_selects("ref-constraints"@, k) == (k == ObjectKind::RefConstraint),
        token_selects("foreign-key"@, k) == (k == ObjectKind::RefConstraint),
        token_selects("foreign-keys"@, k) == (k == ObjectKind::RefConstraint),
        token_selects("packages"@, k) == (token_selects("package-specs"@, k) || token_selects(
            "package-bodies"@,
            k,
        )),
        token_selects("types"@, k) == (token_selects("type-specs"@, k) || token_selects(
            "type-bodies"@,
            k,
        )),
        token_selects("constraints"@, k) == (token_selects("table-constraints"@, k)
            || token_selects("ref-constraints"@, k)),
{
    lemma_selector_token_kinds();
    let pairs = seq![ObjectKind::PackageSpec, ObjectKind::PackageBody];
    assert(pairs[0] == ObjectKind::PackageSpec && pairs[1] == ObjectKind::PackageBody);
    let types = seq![ObjectKind::TypeSpec, ObjectKind::TypeBody];
    assert(types[0] == ObjectKind::TypeSpec && types[1] == ObjectKind::TypeBody);
    let cons = seq![ObjectKind::ObjectConstraint, ObjectKind::RefConstraint];
    assert(cons[0] == ObjectKind::ObjectConstraint && cons[1] == ObjectKind::RefConstraint);
    assert(seq![ObjectKind::PackageSpec][0] == ObjectKind::PackageSpec);
    assert(seq![ObjectKind::PackageBody][0] == ObjectKind::PackageBody);
    assert(seq![ObjectKind::TypeSpec][0] == ObjectKind::TypeSpec);
    assert(seq![ObjectKind::TypeBody][0] == ObjectKind::TypeBody);
    assert(seq![ObjectKind::ObjectConstraint][0] == ObjectKind::ObjectConstraint);
    assert(seq![ObjectKind::RefConstraint][0] == ObjectKind::RefConstraint);
}

/// Excluding a family selector removes every member of the family from the
/// selection, whatever was included: `packages` removes package specs and
/// bodies, `types` type specs and bodies, `constraints` table and
/// referential constraints.
pub proof fn lemma_excluded_family_removes_members(
    added: Seq<Seq<char>>,
    removed: Seq<Seq<char>>,
)
    ensures
        removed.contains("packages"@) ==> !selection_of(added, removed).contains(
            ObjectKind::PackageSpec,
        ) && !selection_of(added, removed).contains(ObjectKind::PackageBody),
        removed.contains("types"@) ==> !selection_of(added, removed).contains(ObjectKind::TypeSpec)
            && !selection_of(added, removed).contains(ObjectKind::TypeBody),
        removed.contains("constraints"@) ==> !selection_of(added, removed).contains(
            ObjectKind::ObjectConstraint,
        ) && !selection_of(added, removed).contains(ObjectKind::RefConstraint),
{
    lemma_family_selectors(ObjectKind::PackageSpec);
    lemma_family_selectors(ObjectKind::PackageBody);
    lemma_family_selectors(ObjectKind::TypeSpec);
    lemma_family_selectors(ObjectKind::TypeBody);
    lemma_family_selectors(ObjectKind::ObjectConstraint);
    lemma_family_selectors(ObjectKind::RefConstraint);
    if removed.contains("packages"@) {
        let i = choose|i: int| 0 <= i < removed.len() && removed[i] == "packages"@;
        assert(token_selects(removed[i], ObjectKind::PackageSpec));
        assert(token_selects(removed[i], ObjectKind::PackageBody));
    }
    if removed.contains("types"@) {
        let i = choose|i: int| 0 <= i < removed.len() && removed[i] == "types"@;
        assert(token_selects(removed[i], ObjectKind::TypeSpec));
        assert(token_selects(removed[i], ObjectKind::TypeBody));
    }
    if removed.contains("constraints"@) {
        let i = choose|i: int| 0 <= i < removed.len() && removed[i] == "constraints"@;
        assert(token_selects(removed[i], ObjectKind::ObjectConstraint));
        assert(token_selects(removed[i], ObjectKind::RefConstraint));
    }
}

/// `all` stands for every kind; `core`, the default set, for tables, views,
/// procedures, functions, package specs and bodies, triggers, sequences, and
/// type specs and bodies.
pub proof fn lemma_all_and_core_selectors(k: ObjectKind)
    ensures
        token_selects("all"@, k),
        token_selects("core"@, k) == (k == ObjectKind::Table || k == ObjectKind::View || k
            == ObjectKind::Procedure || k == ObjectKind::Function || k == ObjectKind::PackageSpec
            || k == ObjectKind::PackageBody || k == ObjectKind::Trigger || k == ObjectKind::Sequence
            || k == ObjectKind::TypeSpec || k == ObjectKind::TypeBody),
{
    lemma_selector_token_kinds();
    let a = all_kinds_seq();
    let c = core_kinds_seq();
    let i = kind_index(k);
    assert(a[i] == k);
    if i < 10 {
        assert(c[i] == k);
    } else if c.contains(k) {
        let j = choose|j: int| 0 <= j < c.len() && c[j] == k;
        assert(kind_index(c[j]) == j);
    }
}

/// Number of tokens at the start of `tokens` that each stand for some kind:
/// the position of the first invalid token, or the length when there is none.
pub open spec fn valid_prefix_len(tokens: Seq<Seq<char>>) -> nat
    decreases tokens.len(),
{
    if tokens.len() == 0 || token_kinds(tokens[0]) is None {
        0
    } else {
        1 + valid_prefix_len(tokens.skip(1))
    }
}

proof fn lemma_valid_prefix_len(tokens: Seq<Seq<char>>, i: int)
    requires
        0 <= i < tokens.len(),
        forall|j: int| 0 <= j < i ==> token_kinds(#[trigger] tokens[j]) is Some,
        token_kinds(tokens[i]) is None,
    ensures
        valid_prefix_len(tokens) == i,
    decreases i,
{
    if i > 0 {
        assert(token_kinds(tokens[0]) is Some);
        assert forall|j: int| 0 <= j < i - 1 implies token_kinds(#[trigger] tokens.skip(1)[j]) is Some by {
            assert(tokens.skip(1)[j] == tokens[j + 1]);
        }
        assert(tokens.skip(1)[i - 1] == tokens[i]);
        lemma_valid_prefix_len(tokens.skip(1), i - 1);
    }
}

/// The kinds selected by the core set, the include tokens and the exclude
/// tokens: every include is applied before every exclude.
pub open spec fn selection_of(added: Seq<Seq<char>>, removed: Seq<Seq<char>>) -> Set<ObjectKind> {
    Set::new(
        |k: ObjectKind| (kind_index(k) < 10 || selected_by(added, k)) && !selected_by(removed, k),
    )
}

pub proof fn lemma_kind_index_injective(a: ObjectKind, b: ObjectKind)
    ensures
        0 <= kind_index(a) < 18,
        kind_index(a) == kind_index(b) ==> a == b,
{
}

proof fn lemma_first_invalid_concat(a: Seq<Seq<char>>, b: Seq<Seq<char>>)
    ensures
        first_invalid_token(a + b) == if first_invalid_token(a) is Some {
            first_invalid_token(a)
        } else {
            first_invalid_token(b)
        },
    decreases a.len(),
{
    if a.len() == 0 {
        assert(a + b == b);
    } else {
        assert((a + b)[0] == a[0]);
        assert((a + b).skip(1) == a.skip(1) + b);
        lemma_first_invalid_concat(a.skip(1), b);
    }
}

/// A set of selected object kinds.
#[derive(Debug, PartialEq, Eq)]
pub struct ObjectSelection {
    kinds: Vec<bool>,
}

impl ObjectSelection {
    #[verifier::type_invariant]
    spec fn well_formed(self) -> bool {
        self.kinds.len() == 18
    }

    /// The selected kinds.
    pub closed spec fn kinds(self) -> Set<ObjectKind> {
        Set::new(|k: ObjectKind| self.kinds@[kind_index(k)])
    }
}

impl View for ObjectSelection {
    type V = Set<ObjectKind>;

    open spec fn view(&self) -> Set<ObjectKind> {
        self.kinds()
    }
}

/// Sets every flag of a kind that some token stands for to `value`, or
/// reports the first token that stands for no kind.
fn apply_tokens(flags: &mut Vec<bool>, tokens: &Vec<Vec<char>>, value: bool) -> (r: Result<
    (),
    Error,
>)
    requires
        old(flags).len() == 18,
    ensures
        final(flags).len() == 18,
        match r {
            Ok(()) => first_invalid_token(char_vec_views(tokens@)) is None && forall|k: ObjectKind|
                #[trigger] final(flags)@[kind_index(k)] == if selected_by(
                    char_vec_views(tokens@),
                    k,
                ) {
                    value
                } else {
                    old(flags)@[kind_index(k)]
                },
            Err(Error::InvalidObjectSelector(t)) => first_invalid_token(char_vec_views(tokens@))
                == Some(t@) && forall|k: ObjectKind|
                #[trigger] final(flags)@[kind_index(k)] == if selected_by(
                    char_vec_views(tokens@).take(valid_prefix_len(char_vec_views(tokens@)) as int),
                    k,
                ) {
                    value
                } else {
                    old(flags)@[kind_index(k)]
                },
            Err(_) => false,
        },
{
    let ghost views = char_vec_views(tokens@);
    let ghost initial = flags@;
    let n = tokens.len();
    assert(views.skip(0) == views);
    for i in 0..n
        invariant
            n == tokens.len(),
            views == char_vec_views(tokens@),
            flags.len() == 18,
            first_invalid_token(views) == first_invalid_token(views.skip(i as int)),
            forall|j: int| 0 <= j < i ==> token_kinds(#[trigger] views[j]) is Some,
            initial == old(flags)@,
            forall|k: ObjectKind|
                #[trigger] flags@[kind_index(k)] == if selected_by(views.take(i as int), k) {
                    value
                } else {
                    initial[kind_index(k)]
                },
    {
        let ghost before = flags@;
        assert(views.skip(i as int)[0] == tokens@[i as int]@);
        assert(views.skip(i as int).skip(1) == views.skip(i + 1));
        match selector_token_kinds(&tokens[i]) {
            None => {
                proof {
                    assert(views[i as int] == tokens@[i as int]@);
                    lemma_valid_prefix_len(views, i as int);
                    assert(views.take(valid_prefix_len(views) as int) == views.take(i as int));
                }
                return Err(Error::InvalidObjectSelector(string_from_chars(&tokens[i])));
            },
            Some(ks) => {
                let m = ks.len();
                for q in 0..m
                    invariant
                        m == ks.len(),
                        flags.len() == 18,
                        forall|k: ObjectKind|
                            #[trigger] flags@[kind_index(k)] == if exists|p: int|
                                0 <= p < q && ks@[p] == k {
                                value
                            } else {
                                before[kind_index(k)]
                            },
                {
                    let pos = kind_position(ks[q]);
                    let ghost prev = flags@;
                    flags.set(pos, value);
                    assert forall|k: ObjectKind| #[trigger]
                        flags@[kind_index(k)] == if exists|p: int| 0 <= p < q + 1 && ks@[p] == k {
                            value
                        } else {
                            before[kind_index(k)]
                        } by {
                        lemma_kind_index_injective(k, ks@[q as int]);
                        if k == ks@[q as int] {
                        } else {
                            assert(flags@[kind_index(k)] == prev[kind_index(k)]);
                            if exists|p: int| 0 <= p < q + 1 && ks@[p] == k {
                                let p = choose|p: int| 0 <= p < q + 1 && ks@[p] == k;
                                assert(p < q);
                            }
                        }
                    }
                }
                assert forall|k: ObjectKind| #[trigger]
                    flags@[kind_index(k)] == if selected_by(views.take(i + 1), k) {
                        value
                    } else {
                        initial[kind_index(k)]
                    } by {
                    let t = views.take(i + 1);
                    assert(t[i as int] == tokens@[i as int]@);
                    if exists|p: int| 0 <= p < m && ks@[p] == k {
                        let p = choose|p: int| 0 <= p < m && ks@[p] == k;
                        assert(ks@.contains(k));
                        assert(token_kinds(t[i as int]) == Some(ks@));
                        assert(token_selects(t[i as int], k));
                        assert(selected_by(t, k));
                    } else {
                        if selected_by(t, k) {
                            let j = choose|j: int| 0 <= j < t.len() && #[trigger] token_selects(t[j], k);
                            if j == i {
                                let p = choose|p: int| 0 <= p < ks@.len() && ks@[p] == k;
                            } else {
                                assert(views.take(i as int)[j] == t[j]);
                                assert(token_selects(views.take(i as int)[j], k));
                                assert(selected_by(views.take(i as int), k));
                            }
                        }
                        if selected_by(views.take(i as int), k) {
                            let j = choose|j: int|
                                0 <= j < i && #[trigger] token_selects(views.take(i as int)[j], k);
                            assert(t[j] == views.take(i as int)[j]);
                            assert(token_selects(t[j], k));
                            assert(selected_by(t, k));
                        }
                    }
                }
            },
        }
    }
    assert(views.take(n as int) == views);
    assert(views.skip(n as int).len() == 0);
    Ok(())
}

/// The tokens of every selector of a list, in order.
fn collect_tokens(selectors: &[String]) -> (r: Vec<Vec<char>>)
    ensures
        char_vec_views(r@) == selector_list_tokens(string_views(selectors@)),
{
    let mut r: Vec<Vec<char>> = Vec::new();
    let n = selectors.len();
    for i in 0..n
        invariant
            n == selectors@.len(),
            char_vec_views(r@) == selector_list_tokens(string_views(selectors@.take(i as int))),
    {
        let ghost before = char_vec_views(r@);
        let mut t = selector_tokens(selectors[i].as_str());
        let ghost tv = char_vec_views(t@);
        r.append(&mut t);
        assert(char_vec_views(r@) =~= before + tv);
        let ghost sv = string_views(selectors@.take(i + 1));
        assert(sv.drop_last() =~= string_views(selectors@.take(i as int)));
        assert(sv.last() == selectors@[i as int]@);
    }
    assert(selectors@.take(n as int) == selectors@);
    r
}

impl ObjectSelection {
    /// The default selection: the core kinds.
    pub fn core_selection() -> (r: Self)
        ensures
            r@ == core_set(),
    {
        let mut kinds: Vec<bool> = Vec::new();
        for i in 0..18usize
            invariant
                kinds@.len() == i,
                forall|j: int| 0 <= j < i ==> #[trigger] kinds@[j] == (j < 10),
        {
            kinds.push(i < 10);
        }
        let r = ObjectSelection { kinds };
        assert(r@ =~= core_set());
        r
    }

    /// The core kinds with every include selector added and then every
    /// exclude selector removed. A selector is a comma-separated list of
    /// tokens: `all`, `core`, or a kind name such as `tables`, `type-body` or
    /// `mviews`, case-insensitive, with `_` accepted for `-`.
    pub fn from_selectors(includes: &[String], excludes: &[String]) -> (r: Result<Self, Error>)
        ensures
            ({
                let inc = selector_list_tokens(string_views(includes@));
                let exc = selector_list_tokens(string_views(excludes@));
                match r {
                    Ok(sel) => first_invalid_token(inc + exc) is None && sel@ == selection_of(
                        inc,
                        exc,
                    ),
                    Err(Error::InvalidObjectSelector(t)) => first_invalid_token(inc + exc) == Some(
                        t@,
                    ),
                    Err(_) => false,
                }
            }),
    {
        let initial = Self::core_selection();
        proof {
            use_type_invariant(&initial);
        }
        let mut flags = initial.kinds;
        let ghost core_flags = flags@;
        assert forall|k: ObjectKind| #[trigger] core_flags[kind_index(k)] == (kind_index(k) < 10) by {
            assert(initial@.contains(k) == core_set().contains(k));
        }
        let inc = collect_tokens(includes);
        let exc = collect_tokens(excludes);
        proof {
            lemma_first_invalid_concat(char_vec_views(inc@), char_vec_views(exc@));
        }
        match apply_tokens(&mut flags, &inc, true) {
            Ok(()) => {},
            Err(e) => {
                return Err(e);
            },
        }
        let ghost after_include = flags@;
        match apply_tokens(&mut flags, &exc, false) {
            Ok(()) => {},
            Err(e) => {
                return Err(e);
            },
        }
        let r = ObjectSelection { kinds: flags };
        assert(r@ =~= selection_of(char_vec_views(inc@), char_vec_views(exc@)));
        Ok(r)
    }

    /// Whether the selection holds `kind`.
    pub fn contains(&self, kind: ObjectKind) -> (r: bool)
        ensures
            r == self@.contains(kind),
    {
        proof {
            use_type_invariant(self);
        }
        self.kinds[kind_position(kind)]
    }
}

impl Clone for ObjectSelection {
    /// The same selection.
    fn clone(&self) -> (r: Self)
        ensures
            r@ == self@,
    {
        proof {
            use_type_invariant(self);
        }
        let mut kinds: Vec<bool> = Vec::new();
        for i in 0..18usize
            invariant
                self.kinds.len() == 18,
                kinds@ == self.kinds@.take(i as int),
        {
            kinds.push(self.kinds[i]);
            assert(self.kinds@.take(i + 1) == self.kinds@.take(i as int).push(self.kinds@[i as int]));
        }
        assert(self.kinds@.take(18) == self.kinds@);
        ObjectSelection { kinds }
    }
}

impl Default for ObjectSelection {
    /// The core kinds.
    fn default() -> (r: Self)
        ensures
            r@ == core_set(),
    {
        Self::core_selection()
    }
}

} // verus!
