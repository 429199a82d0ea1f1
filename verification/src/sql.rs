//! The SQL text of the dictionary queries that list exportable objects.

use vstd::prelude::*;
use vstd::string::StringExecFns;

use crate::kind::{
    all_objects_type_spec, is_listable, kind_index, lemma_all_objects_type_round_trip, ObjectKind,
};
use crate::selection::ObjectSelection;
use crate::text::{join_strings, join_with, lemma_seq_less_transitive, seq_less};

verus! {

broadcast use vstd::string::group_string_axioms;

/// What is known of the connected database.
#[derive(Debug, Clone, PartialEq, Eq)]
pub struct DbCapabilities {
    /// The server's version banner, when it could be read.
    pub server_version_text: Option<String>,
    /// The container (PDB) name, when it could be read and is not blank.
    pub container_name: Option<String>,
    /// Whether `ALL_TAB_IDENTITY_COLS` (12c and later) can be queried.
    pub has_all_tab_identity_cols: bool,
}

impl Default for DbCapabilities {
    /// Nothing known: no banner, no container, no identity-column view.
    fn default() -> (r: Self)
        ensures
            r.server_version_text is None,
            r.container_name is None,
            !r.has_all_tab_identity_cols,
    {
        DbCapabilities {
            server_version_text: None,
            container_name: None,
            has_all_tab_identity_cols: false,
        }
    }
}

/// The listing query when no listable kind is selected: it returns no rows.
pub const EMPTY_LIST_OBJECTS_SQL: &'static str = r#"
            SELECT o.object_name, o.object_type
            FROM all_objects o
            WHERE o.owner = :schema
              AND 1 = 0
            ORDER BY o.object_type, o.object_name
        "#;

/// The listing query up to its `WHERE` predicates.
pub const LIST_OBJECTS_SQL_HEAD: &'static str = r#"
            SELECT o.object_name, o.object_type
            FROM all_objects o
            WHERE "#;

/// The listing query after its `WHERE` predicates.
pub const LIST_OBJECTS_SQL_TAIL: &'static str = r#"
            ORDER BY o.object_type, o.object_name
        "#;

/// What joins two predicates of the listing query.
pub const PREDICATE_SEPARATOR: &'static str = "\n              AND ";

/// Only objects of the schema.
pub const OWNER_PREDICATE: &'static str = "o.owner = :schema";

/// No recycle-bin objects.
pub const RECYCLE_BIN_PREDICATE: &'static str = "o.object_name NOT LIKE 'BIN$%'";

/// No index that backs a primary-key or unique constraint.
pub const CONSTRAINT_INDEX_PREDICATE: &'static str = r#"(
                o.object_type != 'INDEX'
                OR NOT EXISTS (
                  SELECT 1
                  FROM all_constraints c
                  WHERE c.owner = o.owner
                    AND c.index_name = o.object_name
                    AND c.constraint_type IN ('P', 'U')
                )
              )"#;

/// No system-generated identity sequence, recognised by name and through
/// `ALL_TAB_IDENTITY_COLS`.
pub const IDENTITY_SEQUENCE_PREDICATE_WITH_VIEW: &'static str = r#"(
                o.object_type != 'SEQUENCE'
                OR (
                  o.object_name NOT LIKE 'ISEQ$$\_%' ESCAPE '\'
                  AND NOT EXISTS (
                    SELECT 1
                    FROM all_tab_identity_cols identity_cols
                    WHERE identity_cols.owner = o.owner
                      AND identity_cols.sequence_name = o.object_name
                  )
                )
              )"#;

/// No system-generated identity sequence, recognised by name only.
pub const IDENTITY_SEQUENCE_PREDICATE_BY_NAME: &'static str = r#"(
                o.object_type != 'SEQUENCE'
                OR o.object_name NOT LIKE 'ISEQ$$\_%' ESCAPE '\'
              )"#;

/// The query that lists the objects that carry grants.
pub const LIST_OBJECT_GRANTS_SQL: &'static str = r#"
            SELECT DISTINCT p.table_name, o.object_type
            FROM all_tab_privs p
            JOIN all_objects o
              ON o.owner = p.table_schema
             AND o.object_name = p.table_name
            WHERE p.table_schema = :schema
              AND p.table_name NOT LIKE 'BIN$%'
              AND o.object_type IN (
                'TABLE',
                'VIEW',
                'PROCEDURE',
                'FUNCTION',
                'PACKAGE',
                'SEQUENCE',
                'TYPE',
                'MATERIALIZED VIEW'
              )
            ORDER BY o.object_type, p.table_name
        "#;

/// The query that lists the tables with referential constraints.
pub const LIST_REF_CONSTRAINTS_SQL: &'static str = r#"
            SELECT DISTINCT table_name
            FROM all_constraints
            WHERE owner = :schema
              AND constraint_type = 'R'
              AND constraint_name NOT LIKE 'BIN$%'
            ORDER BY table_name
        "#;

/// The query that lists the tables with other constraints.
pub const LIST_TABLE_CONSTRAINTS_SQL: &'static str = r#"
            SELECT DISTINCT table_name
            FROM all_constraints
            WHERE owner = :schema
              AND constraint_type != 'R'
              AND constraint_name NOT LIKE 'BIN$%'
            ORDER BY table_name
        "#;

/// The query that lists the tables and views with comments.
pub const LIST_OBJECT_COMMENTS_SQL: &'static str = r#"
            SELECT table_name
            FROM all_tab_comments
            WHERE owner = :schema
              AND comments IS NOT NULL
            UNION
            SELECT table_name
            FROM all_col_comments
            WHERE owner = :schema
              AND comments IS NOT NULL
            ORDER BY table_name
        "#;

/// The listable kinds in increasing order of their `ALL_OBJECTS` names.
pub open spec fn listing_order() -> Seq<ObjectKind> {
    seq![
        ObjectKind::DatabaseLink,
        ObjectKind::Function,
        ObjectKind::Index,
        ObjectKind::MaterializedView,
        ObjectKind::PackageSpec,
        ObjectKind::PackageBody,
        ObjectKind::Procedure,
        ObjectKind::Sequence,
        ObjectKind::Synonym,
        ObjectKind::Table,
        ObjectKind::Trigger,
        ObjectKind::TypeSpec,
        ObjectKind::TypeBody,
        ObjectKind::View,
    ]
}

fn listing_order_vec() -> (r: Vec<ObjectKind>)
    ensures
        r@ == listing_order(),
{
    vec![
        ObjectKind::DatabaseLink,
        ObjectKind::Function,
        ObjectKind::Index,
        ObjectKind::MaterializedView,
        ObjectKind::PackageSpec,
        ObjectKind::PackageBody,
        ObjectKind::Procedure,
        ObjectKind::Sequence,
        ObjectKind::Synonym,
        ObjectKind::Table,
        ObjectKind::Trigger,
        ObjectKind::TypeSpec,
        ObjectKind::TypeBody,
        ObjectKind::View,
    ]
}

/// The `ALL_OBJECTS` name of `k` when it is selected and listable.
pub open spec fn listed_type(selected: Set<ObjectKind>, k: ObjectKind) -> Option<Seq<char>> {
    if selected.contains(k) && is_listable(k) {
        Some(all_objects_type_spec(k))
    } else {
        None
    }
}

/// The `ALL_OBJECTS` names of the selected listable kinds, in increasing
/// order.
pub open spec fn listed_types(selected: Set<ObjectKind>) -> Seq<Seq<char>> {
    listing_order().filter_map(|k: ObjectKind| listed_type(selected, k))
}

/// `t` between single quotes, as an SQL string literal.
pub open spec fn sql_quoted(t: Seq<char>) -> Seq<char> {
    "'"@ + t + "'"@
}

/// The predicate that keeps identity sequences out of the listing.
pub open spec fn identity_sequence_predicate_spec(has_view: bool) -> Seq<char> {
    if has_view {
        IDENTITY_SEQUENCE_PREDICATE_WITH_VIEW@
    } else {
        IDENTITY_SEQUENCE_PREDICATE_BY_NAME@
    }
}

/// The `WHERE` predicates of the listing query.
pub open spec fn listing_predicates(has_view: bool, selected: Set<ObjectKind>) -> Seq<Seq<char>> {
    let types = listed_types(selected).map_values(|t: Seq<char>| sql_quoted(t));
    let base = seq![
        OWNER_PREDICATE@,
        "o.object_type IN ("@ + join_with(types, ", "@) + ")"@,
        RECYCLE_BIN_PREDICATE@,
        identity_sequence_predicate_spec(has_view),
    ];
    if selected.contains(ObjectKind::Index) {
        base.push(CONSTRAINT_INDEX_PREDICATE@)
    } else {
        base
    }
}

/// The query that lists the selected objects of the schema.
pub open spec fn list_objects_sql_spec(has_view: bool, selected: Set<ObjectKind>) -> Seq<char> {
    if listed_types(selected).len() == 0 {
        EMPTY_LIST_OBJECTS_SQL@
    } else {
        LIST_OBJECTS_SQL_HEAD@ + join_with(listing_predicates(has_view, selected), PREDICATE_SEPARATOR@)
            + LIST_OBJECTS_SQL_TAIL@
    }
}

impl ObjectSelection {
    /// The `ALL_OBJECTS` names of the selected listable kinds, in increasing
    /// order and without repetition.
    pub fn all_objects_types(&self) -> (r: Vec<&'static str>)
        ensures
            r@.map_values(|t: &'static str| t@) == listed_types(self@),
    {
        let order = listing_order_vec();
        let ghost f = |k: ObjectKind| listed_type(self@, k);
        let mut r: Vec<&'static str> = Vec::new();
        let n = order.len();
        for i in 0..n
            invariant
                n == order.len(),
                order@ == listing_order(),
                f == (|k: ObjectKind| listed_type(self@, k)),
                r@.map_values(|t: &'static str| t@) == order@.take(i as int).filter_map(f),
        {
            let ghost before = r@.map_values(|t: &'static str| t@);
            let k = order[i];
            assert(order@.take(i + 1).drop_last() == order@.take(i as int));
            assert(order@.take(i + 1).last() == k);
            match k.list_query_object_type() {
                Some(t) => {
                    if self.contains(k) {
                        r.push(t);
                        assert(r@.map_values(|t: &'static str| t@) =~= before + seq![t@]);
                    }
                },
                None => {},
            }
        }
        assert(order@.take(n as int) == order@);
        r
    }
}

/// The identity-sequence predicate for a database with or without
/// `ALL_TAB_IDENTITY_COLS`.
pub fn identity_sequence_predicate(has_all_tab_identity_cols: bool) -> (r: &'static str)
    ensures
        r@ == identity_sequence_predicate_spec(has_all_tab_identity_cols),
{
    if has_all_tab_identity_cols {
        IDENTITY_SEQUENCE_PREDICATE_WITH_VIEW
    } else {
        IDENTITY_SEQUENCE_PREDICATE_BY_NAME
    }
}

/// The query that lists the selected `ALL_OBJECTS` rows of the schema
/// (bound to `:schema`): the selected listable kinds, no recycle-bin
/// objects, no identity sequences, and, when indexes are selected, no index
/// that backs a primary-key or unique constraint.
pub fn build_list_objects_sql(capabilities: &DbCapabilities, selection: &ObjectSelection) -> (r:
    String)
    ensures
        r@ == list_objects_sql_spec(capabilities.has_all_tab_identity_cols, selection@),
{
    let object_types = selection.all_objects_types();
    if object_types.len() == 0 {
        let mut empty = String::new();
        empty.append(EMPTY_LIST_OBJECTS_SQL);
        return empty;
    }
    let ghost types_views = object_types@.map_values(|t: &'static str| t@);
    let mut quoted: Vec<String> = Vec::new();
    let n = object_types.len();
    for i in 0..n
        invariant
            n == object_types.len(),
            types_views == object_types@.map_values(|t: &'static str| t@),
            quoted@.map_values(|q: String| q@) == types_views.take(i as int).map_values(
                |t: Seq<char>| sql_quoted(t),
            ),
    {
        let mut q = String::new();
        q.append("'");
        q.append(object_types[i]);
        q.append("'");
        assert(types_views[i as int] == object_types@[i as int]@);
        assert(q@ =~= sql_quoted(types_views[i as int]));
        let ghost before = quoted@.map_values(|q: String| q@);
        let ghost qv = q@;
        quoted.push(q);
        assert(quoted@.map_values(|q: String| q@) =~= before.push(qv));
        assert(types_views.take(i + 1).map_values(|t: Seq<char>| sql_quoted(t)) =~= types_views.take(
            i as int,
        ).map_values(|t: Seq<char>| sql_quoted(t)).push(sql_quoted(types_views[i as int])));
        assert(quoted@.map_values(|q: String| q@) =~= types_views.take(i + 1).map_values(
            |t: Seq<char>| sql_quoted(t),
        ));
    }
    assert(types_views.take(n as int) == types_views);
    let mut in_list = String::new();
    in_list.append("o.object_type IN (");
    let joined = join_strings(&quoted, ", ");
    in_list.append(joined.as_str());
    in_list.append(")");
    let mut predicates: Vec<String> = Vec::new();
    let mut owner = String::new();
    owner.append(OWNER_PREDICATE);
    predicates.push(owner);
    predicates.push(in_list);
    let mut recycle = String::new();
    recycle.append(RECYCLE_BIN_PREDICATE);
    predicates.push(recycle);
    let mut identity = String::new();
    identity.append(identity_sequence_predicate(capabilities.has_all_tab_identity_cols));
    predicates.push(identity);
    if selection.contains(ObjectKind::Index) {
        let mut index = String::new();
        index.append(CONSTRAINT_INDEX_PREDICATE);
        predicates.push(index);
    }
    assert(predicates@.map_values(|p: String| p@) =~= listing_predicates(
        capabilities.has_all_tab_identity_cols,
        selection@,
    ));
    let mut sql = String::new();
    sql.append(LIST_OBJECTS_SQL_HEAD);
    let body = join_strings(&predicates, PREDICATE_SEPARATOR);
    sql.append(body.as_str());
    sql.append(LIST_OBJECTS_SQL_TAIL);
    sql
}

/// The query that lists the schema's objects that carry grants.
pub fn build_list_object_grants_sql() -> (r: &'static str)
    ensures
        r@ == LIST_OBJECT_GRANTS_SQL@,
{
    LIST_OBJECT_GRANTS_SQL
}

/// The query that lists the tables with referential constraints (when
/// `ref_constraints`) or with other constraints.
pub fn build_list_object_constraints_sql(ref_constraints: bool) -> (r: &'static str)
    ensures
        r@ == if ref_constraints {
            LIST_REF_CONSTRAINTS_SQL@
        } else {
            LIST_TABLE_CONSTRAINTS_SQL@
        },
{
    if ref_constraints {
        LIST_REF_CONSTRAINTS_SQL
    } else {
        LIST_TABLE_CONSTRAINTS_SQL
    }
}

/// The query that lists the tables and views with table or column comments.
pub fn build_list_object_comments_sql() -> (r: &'static str)
    ensures
        r@ == LIST_OBJECT_COMMENTS_SQL@,
{
    LIST_OBJECT_COMMENTS_SQL
}

/// Consecutive listable kinds in `listing_order` have increasing names.
proof fn lemma_listing_order_adjacent()
    ensures
        forall|i: int|
            0 <= i < 13 ==> seq_less(
                all_objects_type_spec(#[trigger] listing_order()[i]),
                all_objects_type_spec(listing_order()[i + 1]),
            ),
{
    assert(seq_less("DATABASE LINK"@, "FUNCTION"@)) by {
        reveal_with_fuel(seq_less, 2);
        reveal_strlit("DATABASE LINK");
        reveal_strlit("FUNCTION");
        assert("DATABASE LINK"@.len() == 13);
        assert("DATABASE LINK"@[0] == 'D');
        assert("FUNCTION"@.len() == 8);
        assert("FUNCTION"@[0] == 'F');
    }
    assert(seq_less("FUNCTION"@, "INDEX"@)) by {
        reveal_with_fuel(seq_less, 2);
        reveal_strlit("FUNCTION");
        reveal_strlit("INDEX");
        assert("FUNCTION"@.len() == 8);
        assert("FUNCTION"@[0] == 'F');
        assert("INDEX"@.len() == 5);
        assert("INDEX"@[0] == 'I');
    }
    assert(seq_less("INDEX"@, "MATERIALIZED VIEW"@)) by {
        reveal_with_fuel(seq_less, 2);
        reveal_strlit("INDEX");
        reveal_strlit("MATERIALIZED VIEW");
        assert("INDEX"@.len() == 5);
        assert("INDEX"@[0] == 'I');
        assert("MATERIALIZED VIEW"@.len() == 17);
        assert("MATERIALIZED VIEW"@[0] == 'M');
    }
    assert(seq_less("MATERIALIZED VIEW"@, "PACKAGE"@)) by {
        reveal_with_fuel(seq_less, 2);
        reveal_strlit("MATERIALIZED VIEW");
        reveal_strlit("PACKAGE");
        assert("MATERIALIZED VIEW"@.len() == 17);
        assert("MATERIALIZED VIEW"@[0] == 'M');
        assert("PACKAGE"@.len() == 7);
        assert("PACKAGE"@[0] == 'P');
    }
    assert(seq_less("PACKAGE"@, "PACKAGE BODY"@)) by {
        reveal_with_fuel(seq_less, 9);
        reveal_strlit("PACKAGE");
        reveal_strlit("PACKAGE BODY");
        assert("PACKAGE"@.len() == 7);
        assert("PACKAGE"@[0] == 'P');
        assert("PACKAGE"@[1] == 'A');
        assert("PACKAGE"@[2] == 'C');
        assert("PACKAGE"@[3] == 'K');
        assert("PACKAGE"@[4] == 'A');
        assert("PACKAGE"@[5] == 'G');
        assert("PACKAGE"@[6] == 'E');
        assert("PACKAGE BODY"@.len() == 12);
        assert("PACKAGE BODY"@[0] == 'P');
        assert("PACKAGE BODY"@[1] == 'A');
        assert("PACKAGE BODY"@[2] == 'C');
        assert("PACKAGE BODY"@[3] == 'K');
        assert("PACKAGE BODY"@[4] == 'A');
        assert("PACKAGE BODY"@[5] == 'G');
        assert("PACKAGE BODY"@[6] == 'E');
        assert("PACKAGE BODY"@[7] == ' ');
        assert("PACKAGE"@.skip(1).drop_first() == "PACKAGE"@.skip(2));
        assert("PACKAGE BODY"@.skip(1).drop_first() == "PACKAGE BODY"@.skip(2));
        assert("PACKAGE"@.skip(2).drop_first() == "PACKAGE"@.skip(3));
        assert("PACKAGE BODY"@.skip(2).drop_first() == "PACKAGE BODY"@.skip(3));
        assert("PACKAGE"@.skip(3).drop_first() == "PACKAGE"@.skip(4));
        assert("PACKAGE BODY"@.skip(3).drop_first() == "PACKAGE BODY"@.skip(4));
        assert("PACKAGE"@.skip(4).drop_first() == "PACKAGE"@.skip(5));
        assert("PACKAGE BODY"@.skip(4).drop_first() == "PACKAGE BODY"@.skip(5));
        assert("PACKAGE"@.skip(5).drop_first() == "PACKAGE"@.skip(6));
        assert("PACKAGE BODY"@.skip(5).drop_first() == "PACKAGE BODY"@.skip(6));
        assert("PACKAGE"@.skip(6).drop_first() == "PACKAGE"@.skip(7));
        assert("PACKAGE BODY"@.skip(6).drop_first() == "PACKAGE BODY"@.skip(7));
        assert("PACKAGE BODY"@.skip(7).drop_first() == "PACKAGE BODY"@.skip(8));
    }
    assert(seq_less("PACKAGE BODY"@, "PROCEDURE"@)) by {
        reveal_with_fuel(seq_less, 3);
        reveal_strlit("PACKAGE BODY");
        reveal_strlit("PROCEDURE");
        assert("PACKAGE BODY"@.len() == 12);
        assert("PACKAGE BODY"@[0] == 'P');
        assert("PACKAGE BODY"@[1] == 'A');
        assert("PROCEDURE"@.len() == 9);
        assert("PROCEDURE"@[0] == 'P');
        assert("PROCEDURE"@[1] == 'R');
        assert("PACKAGE BODY"@.skip(1).drop_first() == "PACKAGE BODY"@.skip(2));
        assert("PROCEDURE"@.skip(1).drop_first() == "PROCEDURE"@.skip(2));
    }
    assert(seq_less("PROCEDURE"@, "SEQUENCE"@)) by {
        reveal_with_fuel(seq_less, 2);
        reveal_strlit("PROCEDURE");
        reveal_strlit("SEQUENCE");
        assert("PROCEDURE"@.len() == 9);
        assert("PROCEDURE"@[0] == 'P');
        assert("SEQUENCE"@.len() == 8);
        assert("SEQUENCE"@[0] == 'S');
    }
    assert(seq_less("SEQUENCE"@, "SYNONYM"@)) by {
        reveal_with_fuel(seq_less, 3);
        reveal_strlit("SEQUENCE");
        reveal_strlit("SYNONYM");
        assert("SEQUENCE"@.len() == 8);
        assert("SEQUENCE"@[0] == 'S');
        assert("SEQUENCE"@[1] == 'E');
        assert("SYNONYM"@.len() == 7);
        assert("SYNONYM"@[0] == 'S');
        assert("SYNONYM"@[1] == 'Y');
        assert("SEQUENCE"@.skip(1).drop_first() == "SEQUENCE"@.skip(2));
        assert("SYNONYM"@.skip(1).drop_first() == "SYNONYM"@.skip(2));
    }
    assert(seq_less("SYNONYM"@, "TABLE"@)) by {
        reveal_with_fuel(seq_less, 2);
        reveal_strlit("SYNONYM");
        reveal_strlit("TABLE");
        assert("SYNONYM"@.len() == 7);
        assert("SYNONYM"@[0] == 'S');
        assert("TABLE"@.len() == 5);
        assert("TABLE"@[0] == 'T');
    }
    assert(seq_less("TABLE"@, "TRIGGER"@)) by {
        reveal_with_fuel(seq_less, 3);
        reveal_strlit("TABLE");
        reveal_strlit("TRIGGER");
        assert("TABLE"@.len() == 5);
        assert("TABLE"@[0] == 'T');
        assert("TABLE"@[1] == 'A');
        assert("TRIGGER"@.len() == 7);
        assert("TRIGGER"@[0] == 'T');
        assert("TRIGGER"@[1] == 'R');
        assert("TABLE"@.skip(1).drop_first() == "TABLE"@.skip(2));
        assert("TRIGGER"@.skip(1).drop_first() == "TRIGGER"@.skip(2));
    }
    assert(seq_less("TRIGGER"@, "TYPE"@)) by {
        reveal_with_fuel(seq_less, 3);
        reveal_strlit("TRIGGER");
        reveal_strlit("TYPE");
        assert("TRIGGER"@.len() == 7);
        assert("TRIGGER"@[0] == 'T');
        assert("TRIGGER"@[1] == 'R');
        assert("TYPE"@.len() == 4);
        assert("TYPE"@[0] == 'T');
        assert("TYPE"@[1] == 'Y');
        assert("TRIGGER"@.skip(1).drop_first() == "TRIGGER"@.skip(2));
        assert("TYPE"@.skip(1).drop_first() == "TYPE"@.skip(2));
    }
    assert(seq_less("TYPE"@, "TYPE BODY"@)) by {
        reveal_with_fuel(seq_less, 6);
        reveal_strlit("TYPE");
        reveal_strlit("TYPE BODY");
        assert("TYPE"@.len() == 4);
        assert("TYPE"@[0] == 'T');
        assert("TYPE"@[1] == 'Y');
        assert("TYPE"@[2] == 'P');
        assert("TYPE"@[3] == 'E');
        assert("TYPE BODY"@.len() == 9);
        assert("TYPE BODY"@[0] == 'T');
        assert("TYPE BODY"@[1] == 'Y');
        assert("TYPE BODY"@[2] == 'P');
        assert("TYPE BODY"@[3] == 'E');
        assert("TYPE BODY"@[4] == ' ');
        assert("TYPE"@.skip(1).drop_first() == "TYPE"@.skip(2));
        assert("TYPE BODY"@.skip(1).drop_first() == "TYPE BODY"@.skip(2));
        assert("TYPE"@.skip(2).drop_first() == "TYPE"@.skip(3));
        assert("TYPE BODY"@.skip(2).drop_first() == "TYPE BODY"@.skip(3));
        assert("TYPE"@.skip(3).drop_first() == "TYPE"@.skip(4));
        assert("TYPE BODY"@.skip(3).drop_first() == "TYPE BODY"@.skip(4));
        assert("TYPE BODY"@.skip(4).drop_first() == "TYPE BODY"@.skip(5));
    }
    assert(seq_less("TYPE BODY"@, "VIEW"@)) by {
        reveal_with_fuel(seq_less, 2);
        reveal_strlit("TYPE BODY");
        reveal_strlit("VIEW");
        assert("TYPE BODY"@.len() == 9);
        assert("TYPE BODY"@[0] == 'T');
        assert("VIEW"@.len() == 4);
        assert("VIEW"@[0] == 'V');
    }
    assert forall|i: int|
        0 <= i < 13 implies seq_less(
            all_objects_type_spec(#[trigger] listing_order()[i]),
            all_objects_type_spec(listing_order()[i + 1]),
        ) by {}
}

proof fn lemma_listing_order_chain(i: int, j: int)
    requires
        0 <= i < j < 14,
    ensures
        seq_less(
            all_objects_type_spec(listing_order()[i]),
            all_objects_type_spec(listing_order()[j]),
        ),
    decreases j - i,
{
    lemma_listing_order_adjacent();
    if j > i + 1 {
        lemma_listing_order_chain(i, j - 1);
        assert(seq_less(
            all_objects_type_spec(listing_order()[j - 1]),
            all_objects_type_spec(listing_order()[j]),
        ));
        lemma_seq_less_transitive(
            all_objects_type_spec(listing_order()[i]),
            all_objects_type_spec(listing_order()[j - 1]),
            all_objects_type_spec(listing_order()[j]),
        );
    }
}

/// The listing order is the increasing order of `ALL_OBJECTS` names, the
/// order in which a sorted set of the names yields them.
pub proof fn lemma_listing_order_sorted()
    ensures
        forall|i: int, j: int|
            0 <= i < j < 14 ==> seq_less(
                all_objects_type_spec(#[trigger] listing_order()[i]),
                all_objects_type_spec(#[trigger] listing_order()[j]),
            ),
{
    assert forall|i: int, j: int| 0 <= i < j < 14 implies seq_less(
        all_objects_type_spec(#[trigger] listing_order()[i]),
        all_objects_type_spec(#[trigger] listing_order()[j]),
    ) by {
        lemma_listing_order_chain(i, j);
    }
}


proof fn lemma_filter_map_keeps<A, B>(s: Seq<A>, f: spec_fn(A) -> Option<B>, i: int, b: B)
    requires
        0 <= i < s.len(),
        f(s[i]) == Some(b),
    ensures
        s.filter_map(f).contains(b),
    decreases s.len(),
{
    if i == s.len() - 1 {
        assert(s.filter_map(f) == s.drop_last().filter_map(f) + seq![b]);
        assert(s.filter_map(f)[s.drop_last().filter_map(f).len() as int] == b);
    } else {
        assert(s.drop_last()[i] == s[i]);
        lemma_filter_map_keeps(s.drop_last(), f, i, b);
        let p = s.drop_last().filter_map(f);
        let j = choose|j: int| 0 <= j < p.len() && p[j] == b;
        match f(s.last()) {
            Some(x) => {
                assert(s.filter_map(f) == p + seq![x]);
                assert(s.filter_map(f)[j] == b);
            },
            None => {},
        }
    }
}

/// Every listable kind has its place in the listing order.
pub proof fn lemma_listing_order_has_every_listable_kind(k: ObjectKind)
    requires
        is_listable(k),
    ensures
        listing_order().contains(k),
{
    let o = listing_order();
    let i: int = match k {
        ObjectKind::DatabaseLink => 0,
        ObjectKind::Function => 1,
        ObjectKind::Index => 2,
        ObjectKind::MaterializedView => 3,
        ObjectKind::PackageSpec => 4,
        ObjectKind::PackageBody => 5,
        ObjectKind::Procedure => 6,
        ObjectKind::Sequence => 7,
        ObjectKind::Synonym => 8,
        ObjectKind::Table => 9,
        ObjectKind::Trigger => 10,
        ObjectKind::TypeSpec => 11,
        ObjectKind::TypeBody => 12,
        _ => 13,
    };
    assert(o[i] == k);
}

/// The listing query asks for exactly the selected listable kinds: the
/// `ALL_OBJECTS` name of a kind is among the listed types when, and only
/// when, the kind is selected and listable.
pub proof fn lemma_listed_types_are_selected_listable(selected: Set<ObjectKind>, k: ObjectKind)
    ensures
        listed_types(selected).contains(all_objects_type_spec(k)) <==> (selected.contains(k)
            && is_listable(k)),
{
    let f = |x: ObjectKind| listed_type(selected, x);
    let o = listing_order();
    assert(listed_types(selected) == o.filter_map(f));
    if selected.contains(k) && is_listable(k) {
        lemma_listing_order_has_every_listable_kind(k);
        let i = choose|i: int| 0 <= i < o.len() && o[i] == k;
        lemma_filter_map_keeps(o, f, i, all_objects_type_spec(k));
    }
    if o.filter_map(f).contains(all_objects_type_spec(k)) {
        o.lemma_filter_map_contains(f, all_objects_type_spec(k));
        let t = choose|t: ObjectKind| #[trigger] o.contains(t) && f(t) == Some(all_objects_type_spec(k));
        assert(selected.contains(t) && is_listable(t));
        lemma_all_objects_type_round_trip(t);
        lemma_all_objects_type_round_trip(k);
        assert(t == k);
    }
}

} // verus!
