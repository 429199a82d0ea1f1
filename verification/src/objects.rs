//! The objects to export: reading `ALL_OBJECTS` rows, and choosing the
//! dependent objects (constraints, comments, grants) of the listed ones.

use vstd::prelude::*;

use crate::error::Error;
use crate::kind::{
    from_all_objects_type_spec, is_dependent_metadata_base_kind, is_dependent_metadata_kind,
    ObjectKind,
};
use crate::selection::ObjectSelection;
use crate::sql::{
    build_list_object_comments_sql, build_list_object_constraints_sql,
    build_list_object_grants_sql, LIST_OBJECT_COMMENTS_SQL, LIST_OBJECT_GRANTS_SQL,
    LIST_REF_CONSTRAINTS_SQL, LIST_TABLE_CONSTRAINTS_SQL,
};
use crate::text::{
    chars_less, lemma_seq_less_total, lemma_seq_less_transitive,
    seq_less, str_chars,
};

verus! {

broadcast use vstd::string::group_string_axioms;

/// A schema object to export: its name and kind.
#[derive(Debug, Clone, PartialEq, Eq)]
pub struct DbObject {
    pub name: String,
    pub kind: ObjectKind,
}

/// Whether the names are in strictly increasing order (hence distinct).
pub open spec fn strictly_sorted(names: Seq<Seq<char>>) -> bool {
    forall|i: int, j: int| 0 <= i < j < names.len() ==> seq_less(#[trigger] names[i], #[trigger] names[j])
}

/// The views of a sequence of strings.
pub open spec fn name_views(v: Seq<String>) -> Seq<Seq<char>> {
    v.map_values(|s: String| s@)
}

/// The views of the names of a sequence of objects.
pub open spec fn object_names(v: Seq<DbObject>) -> Seq<Seq<char>> {
    v.map_values(|o: DbObject| o.name@)
}

/// Adds `name` to a strictly sorted list of names, keeping it strictly
/// sorted; a name already present is not added again.
fn insert_sorted_unique(names: &mut Vec<String>, name: String)
    requires
        strictly_sorted(name_views(old(names)@)),
    ensures
        strictly_sorted(name_views(final(names)@)),
        forall|x: Seq<char>|
            name_views(final(names)@).contains(x) <==> (name_views(old(names)@).contains(x) || x
                == name@),
{
    let ghost old_views = name_views(names@);
    let key = str_chars(name.as_str());
    let n = names.len();
    let mut p: usize = 0;
    while p < n
        invariant
            n == names.len(),
            p <= n,
            names@ == old(names)@,
            old_views == name_views(names@),
            key@ == name@,
            forall|j: int| 0 <= j < p ==> seq_less(#[trigger] old_views[j], name@),
        ensures
            p <= n,
            p == n || !seq_less(old_views[p as int], name@),
        decreases n - p,
    {
        let current = str_chars(names[p].as_str());
        if !chars_less(&current, &key) {
            break;
        }
        assert(old_views[p as int] == names@[p as int]@);
        p = p + 1;
    }
    if p < n && names[p] == name {
        assert(old_views[p as int] == name@);
        return;
    }
    proof {
        if p < n {
            lemma_seq_less_total(old_views[p as int], name@);
        }
    }
    names.insert(p, name);
    let ghost new_views = name_views(names@);
    assert(new_views =~= old_views.take(p as int).push(name@) + old_views.skip(p as int));
    assert forall|i: int, j: int| 0 <= i < j < new_views.len() implies seq_less(
        #[trigger] new_views[i],
        #[trigger] new_views[j],
    ) by {
        if j < p {
            assert(new_views[i] == old_views[i] && new_views[j] == old_views[j]);
        } else if j == p {
            assert(new_views[i] == old_views[i]);
        } else if i == p {
            assert(new_views[j] == old_views[j - 1]);
            if j - 1 > p {
                lemma_seq_less_transitive(name@, old_views[p as int], old_views[j - 1]);
            }
        } else if i < p {
            assert(new_views[i] == old_views[i]);
            assert(new_views[j] == old_views[j - 1]);
            lemma_seq_less_transitive(old_views[i], name@, old_views[p as int]);
            if j - 1 > p {
                lemma_seq_less_transitive(old_views[i], old_views[p as int], old_views[j - 1]);
            }
        } else {
            assert(new_views[i] == old_views[i - 1]);
            assert(new_views[j] == old_views[j - 1]);
        }
    }
    assert forall|x: Seq<char>|
        new_views.contains(x) <==> (old_views.contains(x) || x == name@) by {
        if new_views.contains(x) {
            let i = choose|i: int| 0 <= i < new_views.len() && new_views[i] == x;
            if i < p {
                assert(old_views[i] == x);
            } else if i > p {
                assert(old_views[i - 1] == x);
            }
        }
        if old_views.contains(x) {
            let i = choose|i: int| 0 <= i < old_views.len() && old_views[i] == x;
            if i < p {
                assert(new_views[i] == x);
            } else {
                assert(new_views[i + 1] == x);
            }
        }
        if x == name@ {
            assert(new_views[p as int] == x);
        }
    }
}

/// The objects named by `ALL_OBJECTS` rows of `(OBJECT_NAME, OBJECT_TYPE)`,
/// in row order; a row of an unsupported type is an error.
pub fn parse_object_rows(rows: &Vec<(String, String)>) -> (r: Result<Vec<DbObject>, Error>)
    ensures
        match r {
            Ok(objects) => objects.len() == rows.len() && forall|i: int|
                0 <= i < rows.len() ==> (#[trigger] objects@[i]).name@ == rows@[i].0@
                    && from_all_objects_type_spec(rows@[i].1@) == Some(objects@[i].kind),
            Err(Error::UnsupportedObjectType(t)) => exists|i: int|
                0 <= i < rows.len() && t@ == (#[trigger] rows@[i]).1@ && from_all_objects_type_spec(
                    rows@[i].1@,
                ) is None && forall|j: int|
                    0 <= j < i ==> from_all_objects_type_spec(#[trigger] rows@[j].1@) is Some,
            Err(_) => false,
        },
{
    let mut objects: Vec<DbObject> = Vec::new();
    let n = rows.len();
    for i in 0..n
        invariant
            n == rows.len(),
            objects.len() == i,
            forall|j: int|
                0 <= j < i ==> (#[trigger] objects@[j]).name@ == rows@[j].0@
                    && from_all_objects_type_spec(rows@[j].1@) == Some(objects@[j].kind),
    {
        let row = &rows[i];
        match ObjectKind::from_all_objects_type(row.1.as_str()) {
            Some(kind) => {
                objects.push(DbObject { name: row.0.clone(), kind });
            },
            None => {
                let r = Err(Error::UnsupportedObjectType(row.1.clone()));
                assert(forall|j: int|
                    0 <= j < i ==> from_all_objects_type_spec(#[trigger] rows@[j].1@) is Some) by {
                    assert forall|j: int| 0 <= j < i implies from_all_objects_type_spec(
                        #[trigger] rows@[j].1@,
                    ) is Some by {
                        assert(objects@[j].name@ == rows@[j].0@);
                    }
                }
                return r;
            },
        }
    }
    Ok(objects)
}

/// The names of the tables, views and materialized views among `objects`.
pub open spec fn is_base_name(objects: Seq<DbObject>, name: Seq<char>) -> bool {
    exists|i: int|
        0 <= i < objects.len() && is_dependent_metadata_base_kind(#[trigger] objects[i].kind)
            && objects[i].name@ == name
}

/// Whether `objects` has a table, view or materialized view, whose dependent
/// metadata could be exported.
pub fn has_dependent_metadata_base(objects: &Vec<DbObject>) -> (r: bool)
    ensures
        r == exists|i: int|
            0 <= i < objects.len() && is_dependent_metadata_base_kind(#[trigger] objects@[i].kind),
{
    let n = objects.len();
    for i in 0..n
        invariant
            n == objects.len(),
            forall|j: int| 0 <= j < i ==> !is_dependent_metadata_base_kind(#[trigger] objects@[j].kind),
    {
        if objects[i].kind.is_dependent_metadata_base() {
            return true;
        }
    }
    false
}

fn has_base_name(objects: &Vec<DbObject>, name: &String) -> (r: bool)
    ensures
        r == is_base_name(objects@, name@),
{
    let n = objects.len();
    for i in 0..n
        invariant
            n == objects.len(),
            forall|j: int|
                0 <= j < i ==> !(is_dependent_metadata_base_kind(#[trigger] objects@[j].kind)
                    && objects@[j].name@ == name@),
    {
        if objects[i].kind.is_dependent_metadata_base() && objects[i].name == *name {
            return true;
        }
    }
    false
}

fn objects_of_names(names: Vec<String>, kind: ObjectKind) -> (r: Vec<DbObject>)
    ensures
        object_names(r@) == name_views(names@),
        forall|i: int| 0 <= i < r.len() ==> (#[trigger] r@[i]).kind == kind,
{
    let mut r: Vec<DbObject> = Vec::new();
    let n = names.len();
    for i in 0..n
        invariant
            n == names.len(),
            object_names(r@) == name_views(names@.take(i as int)),
            forall|j: int| 0 <= j < r.len() ==> (#[trigger] r@[j]).kind == kind,
    {
        let ghost before = object_names(r@);
        let name = names[i].clone();
        assert(name@ == names@[i as int]@);
        r.push(DbObject { name, kind });
        assert(object_names(r@) =~= before.push(names@[i as int]@));
        assert(name_views(names@.take(i + 1)) =~= name_views(names@.take(i as int)).push(
            names@[i as int]@,
        ));
    }
    assert(names@.take(n as int) == names@);
    r
}

/// The dependent objects of kind `kind` to export: the names returned by a
/// dependent-metadata query that are names of listed tables, views or
/// materialized views, each once, in increasing order.
pub fn dependent_objects(objects: &Vec<DbObject>, row_names: &Vec<String>, kind: ObjectKind) -> (r:
    Vec<DbObject>)
    ensures
        strictly_sorted(object_names(r@)),
        forall|i: int| 0 <= i < r.len() ==> (#[trigger] r@[i]).kind == kind,
        forall|x: Seq<char>|
            object_names(r@).contains(x) <==> (name_views(row_names@).contains(x) && is_base_name(
                objects@,
                x,
            )),
{
    let mut names: Vec<String> = Vec::new();
    let n = row_names.len();
    let mut i: usize = 0;
    while i < n
        invariant
            n == row_names.len(),
            i <= n,
            strictly_sorted(name_views(names@)),
            forall|x: Seq<char>|
                #![trigger name_views(names@).contains(x)]
                name_views(names@).contains(x) <==> (name_views(row_names@.take(i as int)).contains(
                    x,
                ) && is_base_name(objects@, x)),
        decreases n - i,
    {
        let ghost before = name_views(names@);
        assert(name_views(row_names@.take(i + 1)) =~= name_views(row_names@.take(i as int)).push(
            row_names@[i as int]@,
        ));
        let base = has_base_name(objects, &row_names[i]);
        assert(base == is_base_name(objects@, row_names@[i as int]@));
        if base {
            let name = row_names[i].clone();
            insert_sorted_unique(&mut names, name);
        }
        assert forall|x: Seq<char>|
            name_views(names@).contains(x) <==> (name_views(row_names@.take(i + 1)).contains(x)
                && is_base_name(objects@, x)) by {
            let t = name_views(row_names@.take(i + 1));
            let t0 = name_views(row_names@.take(i as int));
            assert(t[i as int] == row_names@[i as int]@);
            assert(before.contains(x) == (t0.contains(x) && is_base_name(objects@, x)));
            if x == row_names@[i as int]@ {
                assert(t.contains(x));
            }
            if t.contains(x) {
                let j = choose|j: int| 0 <= j < t.len() && t[j] == x;
                if j < i {
                    assert(t0[j] == x);
                }
            }
            if t0.contains(x) {
                let j = choose|j: int| 0 <= j < t0.len() && t0[j] == x;
                assert(t[j] == x);
            }
        }
        i = i + 1;
    }
    assert(row_names@.take(n as int) == row_names@);
    objects_of_names(names, kind)
}

/// Whether `objects` holds an object with this name and kind.
pub open spec fn has_object(objects: Seq<DbObject>, name: Seq<char>, kind: ObjectKind) -> bool {
    exists|i: int| 0 <= i < objects.len() && #[trigger] objects[i].kind == kind && objects[i].name@ == name
}

/// Whether a grant row `(TABLE_NAME, OBJECT_TYPE)` is on one of `objects`.
pub open spec fn grant_row_selected(objects: Seq<DbObject>, row: (Seq<char>, Seq<char>)) -> bool {
    match from_all_objects_type_spec(row.1) {
        Some(kind) => has_object(objects, row.0, kind),
        None => false,
    }
}

/// The views of a sequence of pairs of strings.
pub open spec fn pair_views(v: Seq<(String, String)>) -> Seq<(Seq<char>, Seq<char>)> {
    v.map_values(|p: (String, String)| (p.0@, p.1@))
}

fn has_object_exec(objects: &Vec<DbObject>, name: &String, kind: ObjectKind) -> (r: bool)
    ensures
        r == has_object(objects@, name@, kind),
{
    let n = objects.len();
    for i in 0..n
        invariant
            n == objects.len(),
            forall|j: int|
                0 <= j < i ==> !(#[trigger] objects@[j].kind == kind && objects@[j].name@ == name@),
    {
        if objects[i].kind == kind && objects[i].name == *name {
            return true;
        }
    }
    false
}

/// The grant objects to export: the names of grant rows `(TABLE_NAME,
/// OBJECT_TYPE)` on objects of `objects` (same name and kind), each once, in
/// increasing order, all of kind `ObjectGrant`.
pub fn grant_objects(objects: &Vec<DbObject>, rows: &Vec<(String, String)>) -> (r: Vec<DbObject>)
    ensures
        strictly_sorted(object_names(r@)),
        forall|i: int| 0 <= i < r.len() ==> (#[trigger] r@[i]).kind == ObjectKind::ObjectGrant,
        forall|x: Seq<char>|
            object_names(r@).contains(x) <==> exists|j: int|
                0 <= j < rows.len() && #[trigger] pair_views(rows@)[j].0 == x && grant_row_selected(
                    objects@,
                    pair_views(rows@)[j],
                ),
{
    let ghost rv = pair_views(rows@);
    let mut names: Vec<String> = Vec::new();
    let n = rows.len();
    for i in 0..n
        invariant
            n == rows.len(),
            rv == pair_views(rows@),
            strictly_sorted(name_views(names@)),
            forall|x: Seq<char>|
                name_views(names@).contains(x) <==> exists|j: int|
                    0 <= j < i && #[trigger] rv[j].0 == x && grant_row_selected(objects@, rv[j]),
    {
        let row = &rows[i];
        let ghost before = name_views(names@);
        let selected = match ObjectKind::from_all_objects_type(row.1.as_str()) {
            Some(kind) => has_object_exec(objects, &row.0, kind),
            None => false,
        };
        assert(rv[i as int] == (row.0@, row.1@));
        assert(selected == grant_row_selected(objects@, rv[i as int]));
        if selected {
            insert_sorted_unique(&mut names, row.0.clone());
        }
        assert forall|x: Seq<char>|
            name_views(names@).contains(x) <==> exists|j: int|
                0 <= j < i + 1 && #[trigger] rv[j].0 == x && grant_row_selected(objects@, rv[j]) by {
            if exists|j: int| 0 <= j < i + 1 && #[trigger] rv[j].0 == x && grant_row_selected(objects@, rv[j]) {
                let j = choose|j: int| 0 <= j < i + 1 && #[trigger] rv[j].0 == x && grant_row_selected(objects@, rv[j]);
                if j < i {
                    assert(before.contains(x));
                }
            }
            if before.contains(x) {
                let j = choose|j: int| 0 <= j < i && #[trigger] rv[j].0 == x && grant_row_selected(objects@, rv[j]);
                assert(0 <= j < i + 1);
            }
        }
    }
    objects_of_names(names, ObjectKind::ObjectGrant)
}

/// The dependent kinds to list after the `ALL_OBJECTS` rows, in the order
/// in which they are listed: table constraints, referential constraints,
/// comments, grants, each only when selected.
pub open spec fn dependent_listing_plan_spec(selected: Set<ObjectKind>) -> Seq<ObjectKind> {
    let a = if selected.contains(ObjectKind::ObjectConstraint) {
        seq![ObjectKind::ObjectConstraint]
    } else {
        Seq::empty()
    };
    let b = if selected.contains(ObjectKind::RefConstraint) {
        seq![ObjectKind::RefConstraint]
    } else {
        Seq::empty()
    };
    let c = if selected.contains(ObjectKind::ObjectComment) {
        seq![ObjectKind::ObjectComment]
    } else {
        Seq::empty()
    };
    let d = if selected.contains(ObjectKind::ObjectGrant) {
        seq![ObjectKind::ObjectGrant]
    } else {
        Seq::empty()
    };
    a + b + c + d
}

/// The dependent kinds to list for a selection, in listing order.
pub fn dependent_listing_plan(selection: &ObjectSelection) -> (r: Vec<ObjectKind>)
    ensures
        r@ == dependent_listing_plan_spec(selection@),
{
    let mut r: Vec<ObjectKind> = Vec::new();
    if selection.contains(ObjectKind::ObjectConstraint) {
        r.push(ObjectKind::ObjectConstraint);
    }
    if selection.contains(ObjectKind::RefConstraint) {
        r.push(ObjectKind::RefConstraint);
    }
    if selection.contains(ObjectKind::ObjectComment) {
        r.push(ObjectKind::ObjectComment);
    }
    if selection.contains(ObjectKind::ObjectGrant) {
        r.push(ObjectKind::ObjectGrant);
    }
    assert(r@ =~= dependent_listing_plan_spec(selection@));
    r
}

/// The query that lists the objects of a dependent kind, or `None` for a
/// kind that is listed from `ALL_OBJECTS`.
pub fn dependent_listing_sql(kind: ObjectKind) -> (r: Option<&'static str>)
    ensures
        match kind {
            ObjectKind::ObjectConstraint => r matches Some(t) && t@ == LIST_TABLE_CONSTRAINTS_SQL@,
            ObjectKind::RefConstraint => r matches Some(t) && t@ == LIST_REF_CONSTRAINTS_SQL@,
            ObjectKind::ObjectComment => r matches Some(t) && t@ == LIST_OBJECT_COMMENTS_SQL@,
            ObjectKind::ObjectGrant => r matches Some(t) && t@ == LIST_OBJECT_GRANTS_SQL@,
            _ => r is None,
        },
{
    match kind {
        ObjectKind::ObjectConstraint => Some(build_list_object_constraints_sql(false)),
        ObjectKind::RefConstraint => Some(build_list_object_constraints_sql(true)),
        ObjectKind::ObjectComment => Some(build_list_object_comments_sql()),
        ObjectKind::ObjectGrant => Some(build_list_object_grants_sql()),
        _ => None,
    }
}


/// The objects that a dependent group of kind `kind` adds to `prev`, given
/// the `TABLE_NAME`s that its query returned: those that name a listed table,
/// view or materialized view, each once, in increasing order.
pub open spec fn is_dependent_group(
    prev: Seq<DbObject>,
    kind: ObjectKind,
    names: Seq<Seq<char>>,
    e: Seq<DbObject>,
) -> bool {
    &&& strictly_sorted(object_names(e))
    &&& forall|i: int| 0 <= i < e.len() ==> (#[trigger] e[i]).kind == kind
    &&& forall|x: Seq<char>|
        #![trigger object_names(e).contains(x)]
        #![trigger names.contains(x)]
        object_names(e).contains(x) <==> (names.contains(x) && is_base_name(prev, x))
}

/// The grant objects added to `prev`, given the `(TABLE_NAME, OBJECT_TYPE)`
/// rows of the grant query: the names of rows on listed objects, each once,
/// in increasing order.
pub open spec fn is_grant_group(
    prev: Seq<DbObject>,
    rows: Seq<(Seq<char>, Seq<char>)>,
    e: Seq<DbObject>,
) -> bool {
    &&& strictly_sorted(object_names(e))
    &&& forall|i: int| 0 <= i < e.len() ==> (#[trigger] e[i]).kind == ObjectKind::ObjectGrant
    &&& forall|x: Seq<char>|
        object_names(e).contains(x) <==> exists|j: int|
            0 <= j < rows.len() && #[trigger] rows[j].0 == x && grant_row_selected(prev, rows[j])
}

/// `next` is `prev` followed by the dependent group of `kind` when the kind
/// is selected, and `prev` itself otherwise.
pub open spec fn extends_dependent(
    prev: Seq<DbObject>,
    next: Seq<DbObject>,
    kind: ObjectKind,
    selected: bool,
    names: Seq<Seq<char>>,
) -> bool {
    &&& prev.len() <= next.len()
    &&& next.take(prev.len() as int) == prev
    &&& if selected {
        is_dependent_group(prev, kind, names, next.skip(prev.len() as int))
    } else {
        next.len() == prev.len()
    }
}

/// `next` is `prev` followed by the grant objects when grants are selected,
/// and `prev` itself otherwise.
pub open spec fn extends_grants(
    prev: Seq<DbObject>,
    next: Seq<DbObject>,
    selected: bool,
    rows: Seq<(Seq<char>, Seq<char>)>,
) -> bool {
    &&& prev.len() <= next.len()
    &&& next.take(prev.len() as int) == prev
    &&& if selected {
        is_grant_group(prev, rows, next.skip(prev.len() as int))
    } else {
        next.len() == prev.len()
    }
}

/// What the dependent queries returned: the `TABLE_NAME`s of the
/// table-constraint, referential-constraint and comment queries, and the
/// `(TABLE_NAME, OBJECT_TYPE)` rows of the grant query. A query that was not
/// run has no rows.
pub struct DependentRows {
    pub constraints: Vec<String>,
    pub ref_constraints: Vec<String>,
    pub comments: Vec<String>,
    pub grants: Vec<(String, String)>,
}

/// Whether the query of the dependent kind `kind` can add anything to the
/// listed `objects`: a grant needs some listed object, the other kinds a
/// listed table, view or materialized view. Adding dependent groups changes
/// neither, so the answer for the objects listed from `ALL_OBJECTS` holds
/// for every later group.
pub fn dependent_query_needed(objects: &Vec<DbObject>, kind: ObjectKind) -> (r: bool)
    ensures
        r == if kind == ObjectKind::ObjectGrant {
            objects.len() > 0
        } else {
            exists|i: int|
                0 <= i < objects.len() && is_dependent_metadata_base_kind(#[trigger] objects@[i].kind)
        },
{
    if kind == ObjectKind::ObjectGrant {
        objects.len() > 0
    } else {
        has_dependent_metadata_base(objects)
    }
}

fn dependent_group(prev: &Vec<DbObject>, names: &Vec<String>, kind: ObjectKind) -> (e: Vec<
    DbObject,
>)
    ensures
        is_dependent_group(prev@, kind, name_views(names@), e@),
{
    let e = dependent_objects(prev, names, kind);
    assert forall|x: Seq<char>|
        #![trigger object_names(e@).contains(x)]
        #![trigger name_views(names@).contains(x)]
        object_names(e@).contains(x) <==> (name_views(names@).contains(x) && is_base_name(
            prev@,
            x,
        )) by {
        if !is_base_name(prev@, x) {
        }
    }
    e
}

fn append_objects(objects: &mut Vec<DbObject>, extra: Vec<DbObject>)
    ensures
        final(objects)@ == old(objects)@ + extra@,
{
    let mut extra = extra;
    objects.append(&mut extra);
}

proof fn lemma_take_skip_concat(a: Seq<DbObject>, b: Seq<DbObject>)
    ensures
        (a + b).take(a.len() as int) == a,
        (a + b).skip(a.len() as int) == b,
        a.len() <= (a + b).len(),
{
    assert((a + b).take(a.len() as int) =~= a);
    assert((a + b).skip(a.len() as int) =~= b);
}

/// The listed objects followed by their selected dependent groups, in the
/// order table constraints, referential constraints, comments, grants; each
/// group is chosen among the objects listed before it.
pub fn join_dependent_objects(
    objects: Vec<DbObject>,
    selection: &ObjectSelection,
    rows: &DependentRows,
) -> (r: Vec<DbObject>)
    ensures
        exists|a: Seq<DbObject>, b: Seq<DbObject>, c: Seq<DbObject>|
            {
                &&& extends_dependent(
                    objects@,
                    a,
                    ObjectKind::ObjectConstraint,
                    selection@.contains(ObjectKind::ObjectConstraint),
                    name_views(rows.constraints@),
                )
                &&& extends_dependent(
                    a,
                    b,
                    ObjectKind::RefConstraint,
                    selection@.contains(ObjectKind::RefConstraint),
                    name_views(rows.ref_constraints@),
                )
                &&& extends_dependent(
                    b,
                    c,
                    ObjectKind::ObjectComment,
                    selection@.contains(ObjectKind::ObjectComment),
                    name_views(rows.comments@),
                )
                &&& extends_grants(
                    c,
                    r@,
                    selection@.contains(ObjectKind::ObjectGrant),
                    pair_views(rows.grants@),
                )
            },
{
    let mut objects = objects;
    let ghost s0 = objects@;
    if selection.contains(ObjectKind::ObjectConstraint) {
        let e = dependent_group(&objects, &rows.constraints, ObjectKind::ObjectConstraint);
        proof {
            lemma_take_skip_concat(s0, e@);
        }
        append_objects(&mut objects, e);
    }
    let ghost s1 = objects@;
    assert(s0.take(s0.len() as int) == s0);
    assert(extends_dependent(
        s0,
        s1,
        ObjectKind::ObjectConstraint,
        selection@.contains(ObjectKind::ObjectConstraint),
        name_views(rows.constraints@),
    ));
    if selection.contains(ObjectKind::RefConstraint) {
        let e = dependent_group(&objects, &rows.ref_constraints, ObjectKind::RefConstraint);
        proof {
            lemma_take_skip_concat(s1, e@);
        }
        append_objects(&mut objects, e);
    }
    let ghost s2 = objects@;
    assert(s1.take(s1.len() as int) == s1);
    assert(extends_dependent(
        s1,
        s2,
        ObjectKind::RefConstraint,
        selection@.contains(ObjectKind::RefConstraint),
        name_views(rows.ref_constraints@),
    ));
    if selection.contains(ObjectKind::ObjectComment) {
        let e = dependent_group(&objects, &rows.comments, ObjectKind::ObjectComment);
        proof {
            lemma_take_skip_concat(s2, e@);
        }
        append_objects(&mut objects, e);
    }
    let ghost s3 = objects@;
    assert(s2.take(s2.len() as int) == s2);
    assert(extends_dependent(
        s2,
        s3,
        ObjectKind::ObjectComment,
        selection@.contains(ObjectKind::ObjectComment),
        name_views(rows.comments@),
    ));
    if selection.contains(ObjectKind::ObjectGrant) {
        let e = grant_objects(&objects, &rows.grants);
        proof {
            lemma_take_skip_concat(s3, e@);
        }
        append_objects(&mut objects, e);
    }
    assert(s3.take(s3.len() as int) == s3);
    assert(extends_grants(
        s3,
        objects@,
        selection@.contains(ObjectKind::ObjectGrant),
        pair_views(rows.grants@),
    ));
    objects
}


/// The dependent listing plan holds exactly the selected dependent kinds
/// (table constraints, referential constraints, comments, grants): each
/// selected one is listed, whatever else is selected, and no other kind.
pub proof fn lemma_dependent_plan_is_selected_dependent_kinds(
    selected: Set<ObjectKind>,
    k: ObjectKind,
)
    ensures
        dependent_listing_plan_spec(selected).contains(k) <==> (selected.contains(k)
            && is_dependent_metadata_kind(k)),
{
    let p = dependent_listing_plan_spec(selected);
    if selected.contains(k) && is_dependent_metadata_kind(k) {
        let a = if selected.contains(ObjectKind::ObjectConstraint) {
            seq![ObjectKind::ObjectConstraint]
        } else {
            Seq::empty()
        };
        let b = if selected.contains(ObjectKind::RefConstraint) {
            seq![ObjectKind::RefConstraint]
        } else {
            Seq::empty()
        };
        let c = if selected.contains(ObjectKind::ObjectComment) {
            seq![ObjectKind::ObjectComment]
        } else {
            Seq::empty()
        };
        let d = if selected.contains(ObjectKind::ObjectGrant) {
            seq![ObjectKind::ObjectGrant]
        } else {
            Seq::empty()
        };
        assert(p == a + b + c + d);
        match k {
            ObjectKind::ObjectConstraint => {
                assert(p[0] == k);
            },
            ObjectKind::RefConstraint => {
                assert(p[a.len() as int] == k);
            },
            ObjectKind::ObjectComment => {
                assert(p[(a.len() + b.len()) as int] == k);
            },
            ObjectKind::ObjectGrant => {
                assert(p[(a.len() + b.len() + c.len()) as int] == k);
            },
            _ => {},
        }
    }
    if p.contains(k) {
        let i = choose|i: int| 0 <= i < p.len() && p[i] == k;
        assert(selected.contains(p[i]) && is_dependent_metadata_kind(p[i]));
    }
}


/// The dependent groups are listed in a fixed order: table constraints,
/// then referential constraints, then comments, then grants.
pub proof fn lemma_dependent_plan_order(selected: Set<ObjectKind>)
    ensures
        forall|i: int, j: int|
            0 <= i < j < dependent_listing_plan_spec(selected).len() ==> dependent_rank(
                #[trigger] dependent_listing_plan_spec(selected)[i],
            ) < dependent_rank(#[trigger] dependent_listing_plan_spec(selected)[j]),
{
    let p = dependent_listing_plan_spec(selected);
    let a = if selected.contains(ObjectKind::ObjectConstraint) {
        seq![ObjectKind::ObjectConstraint]
    } else {
        Seq::empty()
    };
    let b = if selected.contains(ObjectKind::RefConstraint) {
        seq![ObjectKind::RefConstraint]
    } else {
        Seq::empty()
    };
    let c = if selected.contains(ObjectKind::ObjectComment) {
        seq![ObjectKind::ObjectComment]
    } else {
        Seq::empty()
    };
    let d = if selected.contains(ObjectKind::ObjectGrant) {
        seq![ObjectKind::ObjectGrant]
    } else {
        Seq::empty()
    };
    assert(p == a + b + c + d);
    assert forall|i: int, j: int| 0 <= i < j < p.len() implies dependent_rank(#[trigger] p[i])
        < dependent_rank(#[trigger] p[j]) by {
        let ab = a + b;
        let abc = ab + c;
        assert(p == abc + d);
        assert(forall|x: int| 0 <= x < a.len() ==> dependent_rank(#[trigger] a[x]) == 0);
        assert(forall|x: int| 0 <= x < b.len() ==> dependent_rank(#[trigger] b[x]) == 1);
        assert(forall|x: int| 0 <= x < c.len() ==> dependent_rank(#[trigger] c[x]) == 2);
        assert(forall|x: int| 0 <= x < d.len() ==> dependent_rank(#[trigger] d[x]) == 3);
        assert(forall|x: int| 0 <= x < ab.len() ==> #[trigger] ab[x] == if x < a.len() {
            a[x]
        } else {
            b[x - a.len()]
        });
        assert(forall|x: int| 0 <= x < abc.len() ==> #[trigger] abc[x] == if x < ab.len() {
            ab[x]
        } else {
            c[x - ab.len()]
        });
        assert(forall|x: int| 0 <= x < p.len() ==> #[trigger] p[x] == if x < abc.len() {
            abc[x]
        } else {
            d[x - abc.len()]
        });
    }
}

/// The position of a dependent kind in the listing: table constraints,
/// referential constraints, comments, grants.
pub open spec fn dependent_rank(k: ObjectKind) -> int {
    match k {
        ObjectKind::ObjectConstraint => 0,
        ObjectKind::RefConstraint => 1,
        ObjectKind::ObjectComment => 2,
        _ => 3,
    }
}

} // verus!
