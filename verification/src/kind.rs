//! The kinds of Oracle schema objects that are exported, and their names in
//! `ALL_OBJECTS`, in `DBMS_METADATA` and in the output tree.

use vstd::prelude::*;

use crate::text::{chars_equal_str, str_chars};

verus! {

broadcast use vstd::string::group_string_axioms;

/// A kind of exported schema object.
#[derive(Debug, Clone, Copy, PartialEq, Eq, Structural, PartialOrd, Ord, Hash)]
pub enum ObjectKind {
    Table,
    View,
    Procedure,
    Function,
    PackageSpec,
    PackageBody,
    Trigger,
    Sequence,
    TypeSpec,
    TypeBody,
    Index,
    Synonym,
    MaterializedView,
    DatabaseLink,
    ObjectConstraint,
    RefConstraint,
    ObjectComment,
    ObjectGrant,
}

/// Position of a kind in the declaration order, `0` to `17`.
pub open spec fn kind_index(kind: ObjectKind) -> int {
        match kind {
            ObjectKind::Table => 0,
            ObjectKind::View => 1,
            ObjectKind::Procedure => 2,
            ObjectKind::Function => 3,
            ObjectKind::PackageSpec => 4,
            ObjectKind::PackageBody => 5,
            ObjectKind::Trigger => 6,
            ObjectKind::Sequence => 7,
            ObjectKind::TypeSpec => 8,
            ObjectKind::TypeBody => 9,
            ObjectKind::Index => 10,
            ObjectKind::Synonym => 11,
            ObjectKind::MaterializedView => 12,
            ObjectKind::DatabaseLink => 13,
            ObjectKind::ObjectConstraint => 14,
            ObjectKind::RefConstraint => 15,
            ObjectKind::ObjectComment => 16,
            ObjectKind::ObjectGrant => 17,
        }
}

/// The name of a kind in the `OBJECT_TYPE` column of `ALL_OBJECTS`; the four
/// dependent kinds, which are not rows of `ALL_OBJECTS`, carry their
/// `DBMS_METADATA` name.
pub open spec fn all_objects_type_spec(kind: ObjectKind) -> Seq<char> {
        match kind {
            ObjectKind::Table => "TABLE"@,
            ObjectKind::View => "VIEW"@,
            ObjectKind::Procedure => "PROCEDURE"@,
            ObjectKind::Function => "FUNCTION"@,
            ObjectKind::PackageSpec => "PACKAGE"@,
            ObjectKind::PackageBody => "PACKAGE BODY"@,
            ObjectKind::Trigger => "TRIGGER"@,
            ObjectKind::Sequence => "SEQUENCE"@,
            ObjectKind::TypeSpec => "TYPE"@,
            ObjectKind::TypeBody => "TYPE BODY"@,
            ObjectKind::Index => "INDEX"@,
            ObjectKind::Synonym => "SYNONYM"@,
            ObjectKind::MaterializedView => "MATERIALIZED VIEW"@,
            ObjectKind::DatabaseLink => "DATABASE LINK"@,
            ObjectKind::ObjectConstraint => "CONSTRAINT"@,
            ObjectKind::RefConstraint => "REF_CONSTRAINT"@,
            ObjectKind::ObjectComment => "COMMENT"@,
            ObjectKind::ObjectGrant => "OBJECT_GRANT"@,
        }
}

/// The object type that `DBMS_METADATA` expects for a kind.
pub open spec fn metadata_type_spec(kind: ObjectKind) -> Seq<char> {
        match kind {
            ObjectKind::Table => "TABLE"@,
            ObjectKind::View => "VIEW"@,
            ObjectKind::Procedure => "PROCEDURE"@,
            ObjectKind::Function => "FUNCTION"@,
            ObjectKind::PackageSpec => "PACKAGE_SPEC"@,
            ObjectKind::PackageBody => "PACKAGE_BODY"@,
            ObjectKind::Trigger => "TRIGGER"@,
            ObjectKind::Sequence => "SEQUENCE"@,
            ObjectKind::TypeSpec => "TYPE_SPEC"@,
            ObjectKind::TypeBody => "TYPE_BODY"@,
            ObjectKind::Index => "INDEX"@,
            ObjectKind::Synonym => "SYNONYM"@,
            ObjectKind::MaterializedView => "MATERIALIZED_VIEW"@,
            ObjectKind::DatabaseLink => "DB_LINK"@,
            ObjectKind::ObjectConstraint => "CONSTRAINT"@,
            ObjectKind::RefConstraint => "REF_CONSTRAINT"@,
            ObjectKind::ObjectComment => "COMMENT"@,
            ObjectKind::ObjectGrant => "OBJECT_GRANT"@,
        }
}

/// The kinds that are listed from `ALL_OBJECTS` rows.
pub open spec fn is_listable(kind: ObjectKind) -> bool {
    kind_index(kind) < 14
}

/// The kinds whose DDL is fetched as dependent DDL of a table or view.
pub open spec fn is_dependent_metadata_kind(kind: ObjectKind) -> bool {
    !is_listable(kind)
}

/// The kinds whose dependent metadata (constraints, comments) is exported.
pub open spec fn is_dependent_metadata_base_kind(kind: ObjectKind) -> bool {
    kind == ObjectKind::Table || kind == ObjectKind::View || kind == ObjectKind::MaterializedView
}

/// The kind of an `ALL_OBJECTS.OBJECT_TYPE` value, if it is a supported one;
/// the match is exact and case-sensitive.
pub open spec fn from_all_objects_type_spec(value: Seq<char>) -> Option<ObjectKind> {
    if value == "TABLE"@ {
        Some(ObjectKind::Table)
    } else if value == "VIEW"@ {
        Some(ObjectKind::View)
    } else if value == "PROCEDURE"@ {
        Some(ObjectKind::Procedure)
    } else if value == "FUNCTION"@ {
        Some(ObjectKind::Function)
    } else if value == "PACKAGE"@ {
        Some(ObjectKind::PackageSpec)
    } else if value == "PACKAGE BODY"@ {
        Some(ObjectKind::PackageBody)
    } else if value == "TRIGGER"@ {
        Some(ObjectKind::Trigger)
    } else if value == "SEQUENCE"@ {
        Some(ObjectKind::Sequence)
    } else if value == "TYPE"@ {
        Some(ObjectKind::TypeSpec)
    } else if value == "TYPE BODY"@ {
        Some(ObjectKind::TypeBody)
    } else if value == "INDEX"@ {
        Some(ObjectKind::Index)
    } else if value == "SYNONYM"@ {
        Some(ObjectKind::Synonym)
    } else if value == "MATERIALIZED VIEW"@ {
        Some(ObjectKind::MaterializedView)
    } else if value == "DATABASE LINK"@ {
        Some(ObjectKind::DatabaseLink)
    } else {
        None
    }
}

impl ObjectKind {
    /// The kind of an `ALL_OBJECTS.OBJECT_TYPE` value, or `None` for a type
    /// that is not exported (matching is exact and case-sensitive).
    pub fn from_all_objects_type(value: &str) -> (r: Option<Self>)
        ensures
            r == from_all_objects_type_spec(value@),
    {
        let v = str_chars(value);
        if chars_equal_str(&v, "TABLE") {
            return Some(ObjectKind::Table);
        }
        if chars_equal_str(&v, "VIEW") {
            return Some(ObjectKind::View);
        }
        if chars_equal_str(&v, "PROCEDURE") {
            return Some(ObjectKind::Procedure);
        }
        if chars_equal_str(&v, "FUNCTION") {
            return Some(ObjectKind::Function);
        }
        if chars_equal_str(&v, "PACKAGE") {
            return Some(ObjectKind::PackageSpec);
        }
        if chars_equal_str(&v, "PACKAGE BODY") {
            return Some(ObjectKind::PackageBody);
        }
        if chars_equal_str(&v, "TRIGGER") {
            return Some(ObjectKind::Trigger);
        }
        if chars_equal_str(&v, "SEQUENCE") {
            return Some(ObjectKind::Sequence);
        }
        if chars_equal_str(&v, "TYPE") {
            return Some(ObjectKind::TypeSpec);
        }
        if chars_equal_str(&v, "TYPE BODY") {
            return Some(ObjectKind::TypeBody);
        }
        if chars_equal_str(&v, "INDEX") {
            return Some(ObjectKind::Index);
        }
        if chars_equal_str(&v, "SYNONYM") {
            return Some(ObjectKind::Synonym);
        }
        if chars_equal_str(&v, "MATERIALIZED VIEW") {
            return Some(ObjectKind::MaterializedView);
        }
        if chars_equal_str(&v, "DATABASE LINK") {
            return Some(ObjectKind::DatabaseLink);
        }
        None
    }

    /// The `ALL_OBJECTS.OBJECT_TYPE` name of this kind.
    pub fn all_objects_type(self) -> (r: &'static str)
        ensures
            r@ == all_objects_type_spec(self),
    {
        match self {
            ObjectKind::Table => "TABLE",
            ObjectKind::View => "VIEW",
            ObjectKind::Procedure => "PROCEDURE",
            ObjectKind::Function => "FUNCTION",
            ObjectKind::PackageSpec => "PACKAGE",
            ObjectKind::PackageBody => "PACKAGE BODY",
            ObjectKind::Trigger => "TRIGGER",
            ObjectKind::Sequence => "SEQUENCE",
            ObjectKind::TypeSpec => "TYPE",
            ObjectKind::TypeBody => "TYPE BODY",
            ObjectKind::Index => "INDEX",
            ObjectKind::Synonym => "SYNONYM",
            ObjectKind::MaterializedView => "MATERIALIZED VIEW",
            ObjectKind::DatabaseLink => "DATABASE LINK",
            ObjectKind::ObjectConstraint => "CONSTRAINT",
            ObjectKind::RefConstraint => "REF_CONSTRAINT",
            ObjectKind::ObjectComment => "COMMENT",
            ObjectKind::ObjectGrant => "OBJECT_GRANT",
        }
    }

    /// The object type to pass to `DBMS_METADATA` for this kind.
    pub fn metadata_type(self) -> (r: &'static str)
        ensures
            r@ == metadata_type_spec(self),
    {
        match self {
            ObjectKind::Table => "TABLE",
            ObjectKind::View => "VIEW",
            ObjectKind::Procedure => "PROCEDURE",
            ObjectKind::Function => "FUNCTION",
            ObjectKind::PackageSpec => "PACKAGE_SPEC",
            ObjectKind::PackageBody => "PACKAGE_BODY",
            ObjectKind::Trigger => "TRIGGER",
            ObjectKind::Sequence => "SEQUENCE",
            ObjectKind::TypeSpec => "TYPE_SPEC",
            ObjectKind::TypeBody => "TYPE_BODY",
            ObjectKind::Index => "INDEX",
            ObjectKind::Synonym => "SYNONYM",
            ObjectKind::MaterializedView => "MATERIALIZED_VIEW",
            ObjectKind::DatabaseLink => "DB_LINK",
            ObjectKind::ObjectConstraint => "CONSTRAINT",
            ObjectKind::RefConstraint => "REF_CONSTRAINT",
            ObjectKind::ObjectComment => "COMMENT",
            ObjectKind::ObjectGrant => "OBJECT_GRANT",
        }
    }

    /// The directory, under the output root, that holds this kind's files;
    /// it is named after the `DBMS_METADATA` type.
    pub fn output_dir(self) -> (r: &'static str)
        ensures
            r@ == metadata_type_spec(self),
    {
        self.metadata_type()
    }

    /// The `ALL_OBJECTS` type to query for this kind, or `None` for the
    /// dependent kinds, which are listed by their own queries.
    pub fn list_query_object_type(self) -> (r: Option<&'static str>)
        ensures
            is_listable(self) ==> (r matches Some(t) && t@ == all_objects_type_spec(self)),
            !is_listable(self) ==> r is None,
    {
        match self {
            ObjectKind::ObjectConstraint
            | ObjectKind::RefConstraint
            | ObjectKind::ObjectComment
            | ObjectKind::ObjectGrant => None,
            _ => Some(self.all_objects_type()),
        }
    }

    /// Whether this kind's DDL is fetched with `GET_DEPENDENT_DDL`.
    pub fn is_dependent_metadata(self) -> (r: bool)
        ensures
            r == is_dependent_metadata_kind(self),
    {
        match self {
            ObjectKind::ObjectConstraint
            | ObjectKind::RefConstraint
            | ObjectKind::ObjectComment
            | ObjectKind::ObjectGrant => true,
            _ => false,
        }
    }

    /// Whether constraints and comments of objects of this kind are exported.
    pub fn is_dependent_metadata_base(self) -> (r: bool)
        ensures
            r == is_dependent_metadata_base_kind(self),
    {
        match self {
            ObjectKind::Table | ObjectKind::View | ObjectKind::MaterializedView => true,
            _ => false,
        }
    }
}

/// Reading back the `ALL_OBJECTS` name of a listable kind gives the kind,
/// and the dependent kinds' names are not `ALL_OBJECTS` types.
pub proof fn lemma_all_objects_type_round_trip(kind: ObjectKind)
    ensures
        is_listable(kind) ==> from_all_objects_type_spec(all_objects_type_spec(kind)) == Some(kind),
        !is_listable(kind) ==> from_all_objects_type_spec(all_objects_type_spec(kind)) is None,
{
        reveal_strlit("TABLE");
        assert("TABLE"@.len() == 5);
        assert("TABLE"@[0] == 'T');
        assert("TABLE"@[1] == 'A');
        assert("TABLE"@[2] == 'B');
        assert("TABLE"@[3] == 'L');
        assert("TABLE"@[4] == 'E');
        reveal_strlit("VIEW");
        assert("VIEW"@.len() == 4);
        assert("VIEW"@[0] == 'V');
        assert("VIEW"@[1] == 'I');
        assert("VIEW"@[2] == 'E');
        assert("VIEW"@[3] == 'W');
        reveal_strlit("PROCEDURE");
        assert("PROCEDURE"@.len() == 9);
        assert("PROCEDURE"@[0] == 'P');
        assert("PROCEDURE"@[1] == 'R');
        assert("PROCEDURE"@[2] == 'O');
        assert("PROCEDURE"@[3] == 'C');
        assert("PROCEDURE"@[4] == 'E');
        assert("PROCEDURE"@[5] == 'D');
        assert("PROCEDURE"@[6] == 'U');
        assert("PROCEDURE"@[7] == 'R');
        assert("PROCEDURE"@[8] == 'E');
        reveal_strlit("FUNCTION");
        assert("FUNCTION"@.len() == 8);
        assert("FUNCTION"@[0] == 'F');
        assert("FUNCTION"@[1] == 'U');
        assert("FUNCTION"@[2] == 'N');
        assert("FUNCTION"@[3] == 'C');
        assert("FUNCTION"@[4] == 'T');
        assert("FUNCTION"@[5] == 'I');
        assert("FUNCTION"@[6] == 'O');
        assert("FUNCTION"@[7] == 'N');
        reveal_strlit("PACKAGE");
        assert("PACKAGE"@.len() == 7);
        assert("PACKAGE"@[0] == 'P');
        assert("PACKAGE"@[1] == 'A');
        assert("PACKAGE"@[2] == 'C');
        assert("PACKAGE"@[3] == 'K');
        assert("PACKAGE"@[4] == 'A');
        assert("PACKAGE"@[5] == 'G');
        assert("PACKAGE"@[6] == 'E');
        reveal_strlit("PACKAGE BODY");
        assert("PACKAGE BODY"@.len() == 12);
        assert("PACKAGE BODY"@[0] == 'P');
        assert("PACKAGE BODY"@[1] == 'A');
        assert("PACKAGE BODY"@[2] == 'C');
        assert("PACKAGE BODY"@[3] == 'K');
        assert("PACKAGE BODY"@[4] == 'A');
        assert("PACKAGE BODY"@[5] == 'G');
        assert("PACKAGE BODY"@[6] == 'E');
        assert("PACKAGE BODY"@[7] == ' ');
        assert("PACKAGE BODY"@[8] == 'B');
        assert("PACKAGE BODY"@[9] == 'O');
        assert("PACKAGE BODY"@[10] == 'D');
        assert("PACKAGE BODY"@[11] == 'Y');
        reveal_strlit("TRIGGER");
        assert("TRIGGER"@.len() == 7);
        assert("TRIGGER"@[0] == 'T');
        assert("TRIGGER"@[1] == 'R');
        assert("TRIGGER"@[2] == 'I');
        assert("TRIGGER"@[3] == 'G');
        assert("TRIGGER"@[4] == 'G');
        assert("TRIGGER"@[5] == 'E');
        assert("TRIGGER"@[6] == 'R');
        reveal_strlit("SEQUENCE");
        assert("SEQUENCE"@.len() == 8);
        assert("SEQUENCE"@[0] == 'S');
        assert("SEQUENCE"@[1] == 'E');
        assert("SEQUENCE"@[2] == 'Q');
        assert("SEQUENCE"@[3] == 'U');
        assert("SEQUENCE"@[4] == 'E');
        assert("SEQUENCE"@[5] == 'N');
        assert("SEQUENCE"@[6] == 'C');
        assert("SEQUENCE"@[7] == 'E');
        reveal_strlit("TYPE");
        assert("TYPE"@.len() == 4);
        assert("TYPE"@[0] == 'T');
        assert("TYPE"@[1] == 'Y');
        assert("TYPE"@[2] == 'P');
        assert("TYPE"@[3] == 'E');
        reveal_strlit("TYPE BODY");
        assert("TYPE BODY"@.len() == 9);
        assert("TYPE BODY"@[0] == 'T');
        assert("TYPE BODY"@[1] == 'Y');
        assert("TYPE BODY"@[2] == 'P');
        assert("TYPE BODY"@[3] == 'E');
        assert("TYPE BODY"@[4] == ' ');
        assert("TYPE BODY"@[5] == 'B');
        assert("TYPE BODY"@[6] == 'O');
        assert("TYPE BODY"@[7] == 'D');
        assert("TYPE BODY"@[8] == 'Y');
        reveal_strlit("INDEX");
        assert("INDEX"@.len() == 5);
        assert("INDEX"@[0] == 'I');
        assert("INDEX"@[1] == 'N');
        assert("INDEX"@[2] == 'D');
        assert("INDEX"@[3] == 'E');
        assert("INDEX"@[4] == 'X');
        reveal_strlit("SYNONYM");
        assert("SYNONYM"@.len() == 7);
        assert("SYNONYM"@[0] == 'S');
        assert("SYNONYM"@[1] == 'Y');
        assert("SYNONYM"@[2] == 'N');
        assert("SYNONYM"@[3] == 'O');
        assert("SYNONYM"@[4] == 'N');
        assert("SYNONYM"@[5] == 'Y');
        assert("SYNONYM"@[6] == 'M');
        reveal_strlit("MATERIALIZED VIEW");
        assert("MATERIALIZED VIEW"@.len() == 17);
        assert("MATERIALIZED VIEW"@[0] == 'M');
        assert("MATERIALIZED VIEW"@[1] == 'A');
        assert("MATERIALIZED VIEW"@[2] == 'T');
        assert("MATERIALIZED VIEW"@[3] == 'E');
        assert("MATERIALIZED VIEW"@[4] == 'R');
        assert("MATERIALIZED VIEW"@[5] == 'I');
        assert("MATERIALIZED VIEW"@[6] == 'A');
        assert("MATERIALIZED VIEW"@[7] == 'L');
        assert("MATERIALIZED VIEW"@[8] == 'I');
        assert("MATERIALIZED VIEW"@[9] == 'Z');
        assert("MATERIALIZED VIEW"@[10] == 'E');
        assert("MATERIALIZED VIEW"@[11] == 'D');
        assert("MATERIALIZED VIEW"@[12] == ' ');
        assert("MATERIALIZED VIEW"@[13] == 'V');
        assert("MATERIALIZED VIEW"@[14] == 'I');
        assert("MATERIALIZED VIEW"@[15] == 'E');
        assert("MATERIALIZED VIEW"@[16] == 'W');
        reveal_strlit("DATABASE LINK");
        assert("DATABASE LINK"@.len() == 13);
        assert("DATABASE LINK"@[0] == 'D');
        assert("DATABASE LINK"@[1] == 'A');
        assert("DATABASE LINK"@[2] == 'T');
        assert("DATABASE LINK"@[3] == 'A');
        assert("DATABASE LINK"@[4] == 'B');
        assert("DATABASE LINK"@[5] == 'A');
        assert("DATABASE LINK"@[6] == 'S');
        assert("DATABASE LINK"@[7] == 'E');
        assert("DATABASE LINK"@[8] == ' ');
        assert("DATABASE LINK"@[9] == 'L');
        assert("DATABASE LINK"@[10] == 'I');
        assert("DATABASE LINK"@[11] == 'N');
        assert("DATABASE LINK"@[12] == 'K');
        reveal_strlit("CONSTRAINT");
        assert("CONSTRAINT"@.len() == 10);
        assert("CONSTRAINT"@[0] == 'C');
        assert("CONSTRAINT"@[1] == 'O');
        assert("CONSTRAINT"@[2] == 'N');
        assert("CONSTRAINT"@[3] == 'S');
        assert("CONSTRAINT"@[4] == 'T');
        assert("CONSTRAINT"@[5] == 'R');
        assert("CONSTRAINT"@[6] == 'A');
        assert("CONSTRAINT"@[7] == 'I');
        assert("CONSTRAINT"@[8] == 'N');
        assert("CONSTRAINT"@[9] == 'T');
        reveal_strlit("REF_CONSTRAINT");
        assert("REF_CONSTRAINT"@.len() == 14);
        assert("REF_CONSTRAINT"@[0] == 'R');
        assert("REF_CONSTRAINT"@[1] == 'E');
        assert("REF_CONSTRAINT"@[2] == 'F');
        assert("REF_CONSTRAINT"@[3] == '_');
        assert("REF_CONSTRAINT"@[4] == 'C');
        assert("REF_CONSTRAINT"@[5] == 'O');
        assert("REF_CONSTRAINT"@[6] == 'N');
        assert("REF_CONSTRAINT"@[7] == 'S');
        assert("REF_CONSTRAINT"@[8] == 'T');
        assert("REF_CONSTRAINT"@[9] == 'R');
        assert("REF_CONSTRAINT"@[10] == 'A');
        assert("REF_CONSTRAINT"@[11] == 'I');
        assert("REF_CONSTRAINT"@[12] == 'N');
        assert("REF_CONSTRAINT"@[13] == 'T');
        reveal_strlit("COMMENT");
        assert("COMMENT"@.len() == 7);
        assert("COMMENT"@[0] == 'C');
        assert("COMMENT"@[1] == 'O');
        assert("COMMENT"@[2] == 'M');
        assert("COMMENT"@[3] == 'M');
        assert("COMMENT"@[4] == 'E');
        assert("COMMENT"@[5] == 'N');
        assert("COMMENT"@[6] == 'T');
        reveal_strlit("OBJECT_GRANT");
        assert("OBJECT_GRANT"@.len() == 12);
        assert("OBJECT_GRANT"@[0] == 'O');
        assert("OBJECT_GRANT"@[1] == 'B');
        assert("OBJECT_GRANT"@[2] == 'J');
        assert("OBJECT_GRANT"@[3] == 'E');
        assert("OBJECT_GRANT"@[4] == 'C');
        assert("OBJECT_GRANT"@[5] == 'T');
        assert("OBJECT_GRANT"@[6] == '_');
        assert("OBJECT_GRANT"@[7] == 'G');
        assert("OBJECT_GRANT"@[8] == 'R');
        assert("OBJECT_GRANT"@[9] == 'A');
        assert("OBJECT_GRANT"@[10] == 'N');
        assert("OBJECT_GRANT"@[11] == 'T');
}

/// Distinct kinds have distinct `DBMS_METADATA` names, hence distinct output
/// directories.
pub proof fn lemma_metadata_type_injective(a: ObjectKind, b: ObjectKind)
    ensures
        metadata_type_spec(a) == metadata_type_spec(b) ==> a == b,
{
        reveal_strlit("TABLE");
        assert("TABLE"@.len() == 5);
        assert("TABLE"@[0] == 'T');
        assert("TABLE"@[1] == 'A');
        assert("TABLE"@[2] == 'B');
        assert("TABLE"@[3] == 'L');
        assert("TABLE"@[4] == 'E');
        reveal_strlit("VIEW");
        assert("VIEW"@.len() == 4);
        assert("VIEW"@[0] == 'V');
        assert("VIEW"@[1] == 'I');
        assert("VIEW"@[2] == 'E');
        assert("VIEW"@[3] == 'W');
        reveal_strlit("PROCEDURE");
        assert("PROCEDURE"@.len() == 9);
        assert("PROCEDURE"@[0] == 'P');
        assert("PROCEDURE"@[1] == 'R');
        assert("PROCEDURE"@[2] == 'O');
        assert("PROCEDURE"@[3] == 'C');
        assert("PROCEDURE"@[4] == 'E');
        assert("PROCEDURE"@[5] == 'D');
        assert("PROCEDURE"@[6] == 'U');
        assert("PROCEDURE"@[7] == 'R');
        assert("PROCEDURE"@[8] == 'E');
        reveal_strlit("FUNCTION");
        assert("FUNCTION"@.len() == 8);
        assert("FUNCTION"@[0] == 'F');
        assert("FUNCTION"@[1] == 'U');
        assert("FUNCTION"@[2] == 'N');
        assert("FUNCTION"@[3] == 'C');
        assert("FUNCTION"@[4] == 'T');
        assert("FUNCTION"@[5] == 'I');
        assert("FUNCTION"@[6] == 'O');
        assert("FUNCTION"@[7] == 'N');
        reveal_strlit("PACKAGE_SPEC");
        assert("PACKAGE_SPEC"@.len() == 12);
        assert("PACKAGE_SPEC"@[0] == 'P');
        assert("PACKAGE_SPEC"@[1] == 'A');
        assert("PACKAGE_SPEC"@[2] == 'C');
        assert("PACKAGE_SPEC"@[3] == 'K');
        assert("PACKAGE_SPEC"@[4] == 'A');
        assert("PACKAGE_SPEC"@[5] == 'G');
        assert("PACKAGE_SPEC"@[6] == 'E');
        assert("PACKAGE_SPEC"@[7] == '_');
        assert("PACKAGE_SPEC"@[8] == 'S');
        assert("PACKAGE_SPEC"@[9] == 'P');
        assert("PACKAGE_SPEC"@[10] == 'E');
        assert("PACKAGE_SPEC"@[11] == 'C');
        reveal_strlit("PACKAGE_BODY");
        assert("PACKAGE_BODY"@.len() == 12);
        assert("PACKAGE_BODY"@[0] == 'P');
        assert("PACKAGE_BODY"@[1] == 'A');
        assert("PACKAGE_BODY"@[2] == 'C');
        assert("PACKAGE_BODY"@[3] == 'K');
        assert("PACKAGE_BODY"@[4] == 'A');
        assert("PACKAGE_BODY"@[5] == 'G');
        assert("PACKAGE_BODY"@[6] == 'E');
        assert("PACKAGE_BODY"@[7] == '_');
        assert("PACKAGE_BODY"@[8] == 'B');
        assert("PACKAGE_BODY"@[9] == 'O');
        assert("PACKAGE_BODY"@[10] == 'D');
        assert("PACKAGE_BODY"@[11] == 'Y');
        reveal_strlit("TRIGGER");
        assert("TRIGGER"@.len() == 7);
        assert("TRIGGER"@[0] == 'T');
        assert("TRIGGER"@[1] == 'R');
        assert("TRIGGER"@[2] == 'I');
        assert("TRIGGER"@[3] == 'G');
        assert("TRIGGER"@[4] == 'G');
        assert("TRIGGER"@[5] == 'E');
        assert("TRIGGER"@[6] == 'R');
        reveal_strlit("SEQUENCE");
        assert("SEQUENCE"@.len() == 8);
        assert("SEQUENCE"@[0] == 'S');
        assert("SEQUENCE"@[1] == 'E');
        assert("SEQUENCE"@[2] == 'Q');
        assert("SEQUENCE"@[3] == 'U');
        assert("SEQUENCE"@[4] == 'E');
        assert("SEQUENCE"@[5] == 'N');
        assert("SEQUENCE"@[6] == 'C');
        assert("SEQUENCE"@[7] == 'E');
        reveal_strlit("TYPE_SPEC");
        assert("TYPE_SPEC"@.len() == 9);
        assert("TYPE_SPEC"@[0] == 'T');
        assert("TYPE_SPEC"@[1] == 'Y');
        assert("TYPE_SPEC"@[2] == 'P');
        assert("TYPE_SPEC"@[3] == 'E');
        assert("TYPE_SPEC"@[4] == '_');
        assert("TYPE_SPEC"@[5] == 'S');
        assert("TYPE_SPEC"@[6] == 'P');
        assert("TYPE_SPEC"@[7] == 'E');
        assert("TYPE_SPEC"@[8] == 'C');
        reveal_strlit("TYPE_BODY");
        assert("TYPE_BODY"@.len() == 9);
        assert("TYPE_BODY"@[0] == 'T');
        assert("TYPE_BODY"@[1] == 'Y');
        assert("TYPE_BODY"@[2] == 'P');
        assert("TYPE_BODY"@[3] == 'E');
        assert("TYPE_BODY"@[4] == '_');
        assert("TYPE_BODY"@[5] == 'B');
        assert("TYPE_BODY"@[6] == 'O');
        assert("TYPE_BODY"@[7] == 'D');
        assert("TYPE_BODY"@[8] == 'Y');
        reveal_strlit("INDEX");
        assert("INDEX"@.len() == 5);
        assert("INDEX"@[0] == 'I');
        assert("INDEX"@[1] == 'N');
        assert("INDEX"@[2] == 'D');
        assert("INDEX"@[3] == 'E');
        assert("INDEX"@[4] == 'X');
        reveal_strlit("SYNONYM");
        assert("SYNONYM"@.len() == 7);
        assert("SYNONYM"@[0] == 'S');
        assert("SYNONYM"@[1] == 'Y');
        assert("SYNONYM"@[2] == 'N');
        assert("SYNONYM"@[3] == 'O');
        assert("SYNONYM"@[4] == 'N');
        assert("SYNONYM"@[5] == 'Y');
        assert("SYNONYM"@[6] == 'M');
        reveal_strlit("MATERIALIZED_VIEW");
        assert("MATERIALIZED_VIEW"@.len() == 17);
        assert("MATERIALIZED_VIEW"@[0] == 'M');
        assert("MATERIALIZED_VIEW"@[1] == 'A');
        assert("MATERIALIZED_VIEW"@[2] == 'T');
        assert("MATERIALIZED_VIEW"@[3] == 'E');
        assert("MATERIALIZED_VIEW"@[4] == 'R');
        assert("MATERIALIZED_VIEW"@[5] == 'I');
        assert("MATERIALIZED_VIEW"@[6] == 'A');
        assert("MATERIALIZED_VIEW"@[7] == 'L');
        assert("MATERIALIZED_VIEW"@[8] == 'I');
        assert("MATERIALIZED_VIEW"@[9] == 'Z');
        assert("MATERIALIZED_VIEW"@[10] == 'E');
        assert("MATERIALIZED_VIEW"@[11] == 'D');
        assert("MATERIALIZED_VIEW"@[12] == '_');
        assert("MATERIALIZED_VIEW"@[13] == 'V');
        assert("MATERIALIZED_VIEW"@[14] == 'I');
        assert("MATERIALIZED_VIEW"@[15] == 'E');
        assert("MATERIALIZED_VIEW"@[16] == 'W');
        reveal_strlit("DB_LINK");
        assert("DB_LINK"@.len() == 7);
        assert("DB_LINK"@[0] == 'D');
        assert("DB_LINK"@[1] == 'B');
        assert("DB_LINK"@[2] == '_');
        assert("DB_LINK"@[3] == 'L');
        assert("DB_LINK"@[4] == 'I');
        assert("DB_LINK"@[5] == 'N');
        assert("DB_LINK"@[6] == 'K');
        reveal_strlit("CONSTRAINT");
        assert("CONSTRAINT"@.len() == 10);
        assert("CONSTRAINT"@[0] == 'C');
        assert("CONSTRAINT"@[1] == 'O');
        assert("CONSTRAINT"@[2] == 'N');
        assert("CONSTRAINT"@[3] == 'S');
        assert("CONSTRAINT"@[4] == 'T');
        assert("CONSTRAINT"@[5] == 'R');
        assert("CONSTRAINT"@[6] == 'A');
        assert("CONSTRAINT"@[7] == 'I');
        assert("CONSTRAINT"@[8] == 'N');
        assert("CONSTRAINT"@[9] == 'T');
        reveal_strlit("REF_CONSTRAINT");
        assert("REF_CONSTRAINT"@.len() == 14);
        assert("REF_CONSTRAINT"@[0] == 'R');
        assert("REF_CONSTRAINT"@[1] == 'E');
        assert("REF_CONSTRAINT"@[2] == 'F');
        assert("REF_CONSTRAINT"@[3] == '_');
        assert("REF_CONSTRAINT"@[4] == 'C');
        assert("REF_CONSTRAINT"@[5] == 'O');
        assert("REF_CONSTRAINT"@[6] == 'N');
        assert("REF_CONSTRAINT"@[7] == 'S');
        assert("REF_CONSTRAINT"@[8] == 'T');
        assert("REF_CONSTRAINT"@[9] == 'R');
        assert("REF_CONSTRAINT"@[10] == 'A');
        assert("REF_CONSTRAINT"@[11] == 'I');
        assert("REF_CONSTRAINT"@[12] == 'N');
        assert("REF_CONSTRAINT"@[13] == 'T');
        reveal_strlit("COMMENT");
        assert("COMMENT"@.len() == 7);
        assert("COMMENT"@[0] == 'C');
        assert("COMMENT"@[1] == 'O');
        assert("COMMENT"@[2] == 'M');
        assert("COMMENT"@[3] == 'M');
        assert("COMMENT"@[4] == 'E');
        assert("COMMENT"@[5] == 'N');
        assert("COMMENT"@[6] == 'T');
        reveal_strlit("OBJECT_GRANT");
        assert("OBJECT_GRANT"@.len() == 12);
        assert("OBJECT_GRANT"@[0] == 'O');
        assert("OBJECT_GRANT"@[1] == 'B');
        assert("OBJECT_GRANT"@[2] == 'J');
        assert("OBJECT_GRANT"@[3] == 'E');
        assert("OBJECT_GRANT"@[4] == 'C');
        assert("OBJECT_GRANT"@[5] == 'T');
        assert("OBJECT_GRANT"@[6] == '_');
        assert("OBJECT_GRANT"@[7] == 'G');
        assert("OBJECT_GRANT"@[8] == 'R');
        assert("OBJECT_GRANT"@[9] == 'A');
        assert("OBJECT_GRANT"@[10] == 'N');
        assert("OBJECT_GRANT"@[11] == 'T');
}

/// A `DBMS_METADATA` name is a non-empty word of capitals and underscores,
/// so it holds no path separator and is a single path component.
pub proof fn lemma_metadata_type_is_path_component(kind: ObjectKind)
    ensures
        metadata_type_spec(kind).len() > 0,
        forall|i: int|
            0 <= i < metadata_type_spec(kind).len() ==> ('A' <= #[trigger] metadata_type_spec(
                kind,
            )[i] <= 'Z' || metadata_type_spec(kind)[i] == '_'),
{
    match kind {
        ObjectKind::Table => {
            reveal_strlit("TABLE");
            assert("TABLE"@.len() == 5);
            assert("TABLE"@[0] == 'T');
            assert("TABLE"@[1] == 'A');
            assert("TABLE"@[2] == 'B');
            assert("TABLE"@[3] == 'L');
            assert("TABLE"@[4] == 'E');
        },
        ObjectKind::View => {
            reveal_strlit("VIEW");
            assert("VIEW"@.len() == 4);
            assert("VIEW"@[0] == 'V');
            assert("VIEW"@[1] == 'I');
            assert("VIEW"@[2] == 'E');
            assert("VIEW"@[3] == 'W');
        },
        ObjectKind::Procedure => {
            reveal_strlit("PROCEDURE");
            assert("PROCEDURE"@.len() == 9);
            assert("PROCEDURE"@[0] == 'P');
            assert("PROCEDURE"@[1] == 'R');
            assert("PROCEDURE"@[2] == 'O');
            assert("PROCEDURE"@[3] == 'C');
            assert("PROCEDURE"@[4] == 'E');
            assert("PROCEDURE"@[5] == 'D');
            assert("PROCEDURE"@[6] == 'U');
            assert("PROCEDURE"@[7] == 'R');
            assert("PROCEDURE"@[8] == 'E');
        },
        ObjectKind::Function => {
            reveal_strlit("FUNCTION");
            assert("FUNCTION"@.len() == 8);
            assert("FUNCTION"@[0] == 'F');
            assert("FUNCTION"@[1] == 'U');
            assert("FUNCTION"@[2] == 'N');
            assert("FUNCTION"@[3] == 'C');
            assert("FUNCTION"@[4] == 'T');
            assert("FUNCTION"@[5] == 'I');
            assert("FUNCTION"@[6] == 'O');
            assert("FUNCTION"@[7] == 'N');
        },
        ObjectKind::PackageSpec => {
            reveal_strlit("PACKAGE_SPEC");
            assert("PACKAGE_SPEC"@.len() == 12);
            assert("PACKAGE_SPEC"@[0] == 'P');
            assert("PACKAGE_SPEC"@[1] == 'A');
            assert("PACKAGE_SPEC"@[2] == 'C');
            assert("PACKAGE_SPEC"@[3] == 'K');
            assert("PACKAGE_SPEC"@[4] == 'A');
            assert("PACKAGE_SPEC"@[5] == 'G');
            assert("PACKAGE_SPEC"@[6] == 'E');
            assert("PACKAGE_SPEC"@[7] == '_');
            assert("PACKAGE_SPEC"@[8] == 'S');
            assert("PACKAGE_SPEC"@[9] == 'P');
            assert("PACKAGE_SPEC"@[10] == 'E');
            assert("PACKAGE_SPEC"@[11] == 'C');
        },
        ObjectKind::PackageBody => {
            reveal_strlit("PACKAGE_BODY");
            assert("PACKAGE_BODY"@.len() == 12);
            assert("PACKAGE_BODY"@[0] == 'P');
            assert("PACKAGE_BODY"@[1] == 'A');
            assert("PACKAGE_BODY"@[2] == 'C');
            assert("PACKAGE_BODY"@[3] == 'K');
            assert("PACKAGE_BODY"@[4] == 'A');
            assert("PACKAGE_BODY"@[5] == 'G');
            assert("PACKAGE_BODY"@[6] == 'E');
            assert("PACKAGE_BODY"@[7] == '_');
            assert("PACKAGE_BODY"@[8] == 'B');
            assert("PACKAGE_BODY"@[9] == 'O');
            assert("PACKAGE_BODY"@[10] == 'D');
            assert("PACKAGE_BODY"@[11] == 'Y');
        },
        ObjectKind::Trigger => {
            reveal_strlit("TRIGGER");
            assert("TRIGGER"@.len() == 7);
            assert("TRIGGER"@[0] == 'T');
            assert("TRIGGER"@[1] == 'R');
            assert("TRIGGER"@[2] == 'I');
            assert("TRIGGER"@[3] == 'G');
            assert("TRIGGER"@[4] == 'G');
            assert("TRIGGER"@[5] == 'E');
            assert("TRIGGER"@[6] == 'R');
        },
        ObjectKind::Sequence => {
            reveal_strlit("SEQUENCE");
            assert("SEQUENCE"@.len() == 8);
            assert("SEQUENCE"@[0] == 'S');
            assert("SEQUENCE"@[1] == 'E');
            assert("SEQUENCE"@[2] == 'Q');
            assert("SEQUENCE"@[3] == 'U');
            assert("SEQUENCE"@[4] == 'E');
            assert("SEQUENCE"@[5] == 'N');
            assert("SEQUENCE"@[6] == 'C');
            assert("SEQUENCE"@[7] == 'E');
        },
        ObjectKind::TypeSpec => {
            reveal_strlit("TYPE_SPEC");
            assert("TYPE_SPEC"@.len() == 9);
            assert("TYPE_SPEC"@[0] == 'T');
            assert("TYPE_SPEC"@[1] == 'Y');
            assert("TYPE_SPEC"@[2] == 'P');
            assert("TYPE_SPEC"@[3] == 'E');
            assert("TYPE_SPEC"@[4] == '_');
            assert("TYPE_SPEC"@[5] == 'S');
            assert("TYPE_SPEC"@[6] == 'P');
            assert("TYPE_SPEC"@[7] == 'E');
            assert("TYPE_SPEC"@[8] == 'C');
        },
        ObjectKind::TypeBody => {
            reveal_strlit("TYPE_BODY");
            assert("TYPE_BODY"@.len() == 9);
            assert("TYPE_BODY"@[0] == 'T');
            assert("TYPE_BODY"@[1] == 'Y');
            assert("TYPE_BODY"@[2] == 'P');
            assert("TYPE_BODY"@[3] == 'E');
            assert("TYPE_BODY"@[4] == '_');
            assert("TYPE_BODY"@[5] == 'B');
            assert("TYPE_BODY"@[6] == 'O');
            assert("TYPE_BODY"@[7] == 'D');
            assert("TYPE_BODY"@[8] == 'Y');
        },
        ObjectKind::Index => {
            reveal_strlit("INDEX");
            assert("INDEX"@.len() == 5);
            assert("INDEX"@[0] == 'I');
            assert("INDEX"@[1] == 'N');
            assert("INDEX"@[2] == 'D');
            assert("INDEX"@[3] == 'E');
            assert("INDEX"@[4] == 'X');
        },
        ObjectKind::Synonym => {
            reveal_strlit("SYNONYM");
            assert("SYNONYM"@.len() == 7);
            assert("SYNONYM"@[0] == 'S');
            assert("SYNONYM"@[1] == 'Y');
            assert("SYNONYM"@[2] == 'N');
            assert("SYNONYM"@[3] == 'O');
            assert("SYNONYM"@[4] == 'N');
            assert("SYNONYM"@[5] == 'Y');
            assert("SYNONYM"@[6] == 'M');
        },
        ObjectKind::MaterializedView => {
            reveal_strlit("MATERIALIZED_VIEW");
            assert("MATERIALIZED_VIEW"@.len() == 17);
            assert("MATERIALIZED_VIEW"@[0] == 'M');
            assert("MATERIALIZED_VIEW"@[1] == 'A');
            assert("MATERIALIZED_VIEW"@[2] == 'T');
            assert("MATERIALIZED_VIEW"@[3] == 'E');
            assert("MATERIALIZED_VIEW"@[4] == 'R');
            assert("MATERIALIZED_VIEW"@[5] == 'I');
            assert("MATERIALIZED_VIEW"@[6] == 'A');
            assert("MATERIALIZED_VIEW"@[7] == 'L');
            assert("MATERIALIZED_VIEW"@[8] == 'I');
            assert("MATERIALIZED_VIEW"@[9] == 'Z');
            assert("MATERIALIZED_VIEW"@[10] == 'E');
            assert("MATERIALIZED_VIEW"@[11] == 'D');
            assert("MATERIALIZED_VIEW"@[12] == '_');
            assert("MATERIALIZED_VIEW"@[13] == 'V');
            assert("MATERIALIZED_VIEW"@[14] == 'I');
            assert("MATERIALIZED_VIEW"@[15] == 'E');
            assert("MATERIALIZED_VIEW"@[16] == 'W');
        },
        ObjectKind::DatabaseLink => {
            reveal_strlit("DB_LINK");
            assert("DB_LINK"@.len() == 7);
            assert("DB_LINK"@[0] == 'D');
            assert("DB_LINK"@[1] == 'B');
            assert("DB_LINK"@[2] == '_');
            assert("DB_LINK"@[3] == 'L');
            assert("DB_LINK"@[4] == 'I');
            assert("DB_LINK"@[5] == 'N');
            assert("DB_LINK"@[6] == 'K');
        },
        ObjectKind::ObjectConstraint => {
            reveal_strlit("CONSTRAINT");
            assert("CONSTRAINT"@.len() == 10);
            assert("CONSTRAINT"@[0] == 'C');
            assert("CONSTRAINT"@[1] == 'O');
            assert("CONSTRAINT"@[2] == 'N');
            assert("CONSTRAINT"@[3] == 'S');
            assert("CONSTRAINT"@[4] == 'T');
            assert("CONSTRAINT"@[5] == 'R');
            assert("CONSTRAINT"@[6] == 'A');
            assert("CONSTRAINT"@[7] == 'I');
            assert("CONSTRAINT"@[8] == 'N');
            assert("CONSTRAINT"@[9] == 'T');
        },
        ObjectKind::RefConstraint => {
            reveal_strlit("REF_CONSTRAINT");
            assert("REF_CONSTRAINT"@.len() == 14);
            assert("REF_CONSTRAINT"@[0] == 'R');
            assert("REF_CONSTRAINT"@[1] == 'E');
            assert("REF_CONSTRAINT"@[2] == 'F');
            assert("REF_CONSTRAINT"@[3] == '_');
            assert("REF_CONSTRAINT"@[4] == 'C');
            assert("REF_CONSTRAINT"@[5] == 'O');
            assert("REF_CONSTRAINT"@[6] == 'N');
            assert("REF_CONSTRAINT"@[7] == 'S');
            assert("REF_CONSTRAINT"@[8] == 'T');
            assert("REF_CONSTRAINT"@[9] == 'R');
            assert("REF_CONSTRAINT"@[10] == 'A');
            assert("REF_CONSTRAINT"@[11] == 'I');
            assert("REF_CONSTRAINT"@[12] == 'N');
            assert("REF_CONSTRAINT"@[13] == 'T');
        },
        ObjectKind::ObjectComment => {
            reveal_strlit("COMMENT");
            assert("COMMENT"@.len() == 7);
            assert("COMMENT"@[0] == 'C');
            assert("COMMENT"@[1] == 'O');
            assert("COMMENT"@[2] == 'M');
            assert("COMMENT"@[3] == 'M');
            assert("COMMENT"@[4] == 'E');
            assert("COMMENT"@[5] == 'N');
            assert("COMMENT"@[6] == 'T');
        },
        ObjectKind::ObjectGrant => {
            reveal_strlit("OBJECT_GRANT");
            assert("OBJECT_GRANT"@.len() == 12);
            assert("OBJECT_GRANT"@[0] == 'O');
            assert("OBJECT_GRANT"@[1] == 'B');
            assert("OBJECT_GRANT"@[2] == 'J');
            assert("OBJECT_GRANT"@[3] == 'E');
            assert("OBJECT_GRANT"@[4] == 'C');
            assert("OBJECT_GRANT"@[5] == 'T');
            assert("OBJECT_GRANT"@[6] == '_');
            assert("OBJECT_GRANT"@[7] == 'G');
            assert("OBJECT_GRANT"@[8] == 'R');
            assert("OBJECT_GRANT"@[9] == 'A');
            assert("OBJECT_GRANT"@[10] == 'N');
            assert("OBJECT_GRANT"@[11] == 'T');
        },
    }
}

} // verus!
