//! How a session is prepared for `DBMS_METADATA` and how DDL is fetched:
//! the transform parameters to set, the statements that set them, which
//! database errors are tolerated, and the DDL queries.

use vstd::prelude::*;
use vstd::string::StringExecFns;

use crate::kind::{is_dependent_metadata_kind, ObjectKind};
use crate::text::{chars_trim, str_chars, trim};

verus! {

broadcast use vstd::string::group_string_axioms;

/// Options of the metadata session.
#[derive(Debug, Clone, Copy, PartialEq, Eq)]
pub struct MetadataOptions {
    /// Keep segment attributes and schema names in the DDL.
    pub lossless: bool,
}

impl Default for MetadataOptions {
    /// The default session: not lossless.
    fn default() -> (r: Self)
        ensures
            !r.lossless,
    {
        MetadataOptions { lossless: false }
    }
}

/// What happened to one transform parameter.
#[derive(Debug, Clone, PartialEq, Eq)]
pub struct MetadataTransformResult {
    /// The parameter's name.
    pub name: &'static str,
    /// Whether the database accepted it.
    pub applied: bool,
    /// The Oracle error code when it was not applied.
    pub error_code: Option<i32>,
    /// The Oracle error message when it was not applied.
    pub error_message: Option<String>,
}

/// The transform parameters to set, in order, with their values: without
/// segment attributes (unless lossless), with SQL terminators, pretty
/// printed, and without schema names (unless lossless).
pub open spec fn transform_plan_spec(options: MetadataOptions) -> Seq<(Seq<char>, bool)> {
    let head = if options.lossless {
        Seq::empty()
    } else {
        seq![("SEGMENT_ATTRIBUTES"@, false)]
    };
    let tail = if options.lossless {
        Seq::empty()
    } else {
        seq![("EMIT_SCHEMA"@, false)]
    };
    head + seq![("SQLTERMINATOR"@, true), ("PRETTY"@, true)] + tail
}

/// The transform parameters to set for a session, with their values.
pub fn metadata_transform_plan(options: MetadataOptions) -> (r: Vec<(&'static str, bool)>)
    ensures
        r@.map_values(|p: (&'static str, bool)| (p.0@, p.1)) == transform_plan_spec(options),
{
    let mut r: Vec<(&'static str, bool)> = Vec::new();
    if !options.lossless {
        r.push(("SEGMENT_ATTRIBUTES", false));
    }
    r.push(("SQLTERMINATOR", true));
    r.push(("PRETTY", true));
    if !options.lossless {
        r.push(("EMIT_SCHEMA", false));
    }
    assert(r@.map_values(|p: (&'static str, bool)| (p.0@, p.1)) =~= transform_plan_spec(options));
    r
}

/// The PL/SQL block that sets one session transform parameter.
pub open spec fn transform_param_sql_spec(name: Seq<char>, value: bool) -> Seq<char> {
    "BEGIN DBMS_METADATA.SET_TRANSFORM_PARAM(DBMS_METADATA.SESSION_TRANSFORM, '"@ + name + "', "@
        + (if value {
        "TRUE"@
    } else {
        "FALSE"@
    }) + "); END;"@
}

/// The PL/SQL block that sets the session transform parameter `name` to
/// `value`.
pub fn transform_param_sql(name: &str, value: bool) -> (r: String)
    ensures
        r@ == transform_param_sql_spec(name@, value),
{
    let mut sql = String::new();
    sql.append("BEGIN DBMS_METADATA.SET_TRANSFORM_PARAM(DBMS_METADATA.SESSION_TRANSFORM, '");
    sql.append(name);
    sql.append("', ");
    if value {
        sql.append("TRUE");
    } else {
        sql.append("FALSE");
    }
    sql.append("); END;");
    assert(sql@ =~= transform_param_sql_spec(name@, value));
    sql
}

/// Oracle errors that mean a transform parameter is not supported by this
/// database version (ORA-31600 to ORA-31602, ORA-31604, ORA-31605).
pub open spec fn is_unsupported_transform_code(code: Option<i32>) -> bool {
    match code {
        Some(c) => c == 31600 || c == 31601 || c == 31602 || c == 31604 || c == 31605,
        None => false,
    }
}

/// Oracle errors that mean a dictionary view is missing or not readable
/// (ORA-00942, ORA-01031).
pub open spec fn is_missing_or_forbidden_code(code: Option<i32>) -> bool {
    match code {
        Some(c) => c == 942 || c == 1031,
        None => false,
    }
}

/// Whether an Oracle error code says that a transform parameter is not
/// supported.
pub fn is_unsupported_metadata_transform(code: Option<i32>) -> (r: bool)
    ensures
        r == is_unsupported_transform_code(code),
{
    match code {
        Some(c) => c == 31600 || c == 31601 || c == 31602 || c == 31604 || c == 31605,
        None => false,
    }
}

/// Whether an Oracle error code says that a probed view is missing or
/// forbidden, so that the probe answers "unavailable" instead of failing.
pub fn is_missing_or_forbidden(code: Option<i32>) -> (r: bool)
    ensures
        r == is_missing_or_forbidden_code(code),
{
    match code {
        Some(c) => c == 942 || c == 1031,
        None => false,
    }
}

/// The record of setting a transform parameter: applied when the statement
/// succeeded (`failure` is `None`); not applied, with the Oracle error code
/// and message, when it failed with an unsupported-parameter error; `None`
/// when it failed otherwise, which is an error of the export.
pub fn transform_result(name: &'static str, failure: Option<(Option<i32>, Option<String>)>) -> (r:
    Option<MetadataTransformResult>)
    ensures
        match failure {
            None => r matches Some(t) && t.name == name && t.applied && t.error_code is None
                && t.error_message is None,
            Some((code, message)) => if is_unsupported_transform_code(code) {
                r matches Some(t) && t.name == name && !t.applied && t.error_code == code
                    && t.error_message == message
            } else {
                r is None
            },
        },
{
    match failure {
        None => Some(
            MetadataTransformResult { name, applied: true, error_code: None, error_message: None },
        ),
        Some((code, message)) => {
            if is_unsupported_metadata_transform(code) {
                Some(
                    MetadataTransformResult {
                        name,
                        applied: false,
                        error_code: code,
                        error_message: message,
                    },
                )
            } else {
                None
            }
        },
    }
}

/// The query that reads an object's DDL.
pub const GET_DDL_SQL: &'static str =
    "SELECT DBMS_METADATA.GET_DDL(:object_type, :object_name, :schema) FROM dual";

/// The query that reads the dependent DDL (constraints, comments, grants)
/// of a table or view.
pub const GET_DEPENDENT_DDL_SQL: &'static str =
    "SELECT DBMS_METADATA.GET_DEPENDENT_DDL(:object_type, :object_name, :schema) FROM dual";

/// The query that reads the container name of the session.
pub const CONTAINER_NAME_SQL: &'static str =
    "SELECT SYS_CONTEXT('USERENV', 'CON_NAME') FROM dual";

/// The query whose success shows that `ALL_TAB_IDENTITY_COLS` is readable.
pub const IDENTITY_COLUMNS_PROBE_SQL: &'static str =
    "SELECT 1 FROM all_tab_identity_cols WHERE 1 = 0";

/// The query that finds a user (schema) by exact name.
pub const FIND_SCHEMA_SQL: &'static str = "SELECT username FROM all_users WHERE username = :schema";

/// The DDL query for an object of kind `kind`: dependent DDL for the
/// dependent kinds, plain DDL otherwise.
pub fn ddl_query_sql(kind: ObjectKind) -> (r: &'static str)
    ensures
        r@ == if is_dependent_metadata_kind(kind) {
            GET_DEPENDENT_DDL_SQL@
        } else {
            GET_DDL_SQL@
        },
{
    if kind.is_dependent_metadata() {
        GET_DEPENDENT_DDL_SQL
    } else {
        GET_DDL_SQL
    }
}

/// The container name as reported, unless it is blank.
pub fn non_blank(value: Option<String>) -> (r: Option<String>)
    ensures
        match value {
            Some(v) => if trim(v@).len() == 0 {
                r is None
            } else {
                r == Some(v)
            },
            None => r is None,
        },
{
    match value {
        Some(v) => {
            let chars = str_chars(v.as_str());
            let trimmed = chars_trim(&chars);
            if trimmed.len() == 0 {
                None
            } else {
                Some(v)
            }
        },
        None => None,
    }
}

} // verus!
