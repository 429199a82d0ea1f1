use oracode::error::Error;
use oracode::kind::ObjectKind;
use oracode::metadata::{
    ddl_query_sql, is_missing_or_forbidden, is_unsupported_metadata_transform,
    metadata_transform_plan, non_blank, transform_param_sql, transform_result, MetadataOptions,
    GET_DDL_SQL, GET_DEPENDENT_DDL_SQL,
};
use oracode::objects::{
    dependent_listing_plan, dependent_listing_sql, dependent_objects, dependent_query_needed,
    grant_objects, has_dependent_metadata_base, join_dependent_objects, parse_object_rows,
    DbObject, DependentRows,
};
use oracode::selection::ObjectSelection;
use oracode::sql::{LIST_OBJECT_GRANTS_SQL, LIST_REF_CONSTRAINTS_SQL};

fn obj(name: &str, kind: ObjectKind) -> DbObject {
    DbObject { name: name.to_string(), kind }
}

fn row(name: &str, object_type: &str) -> (String, String) {
    (name.to_string(), object_type.to_string())
}

#[test]
fn rows_become_objects_in_order() {
    let rows = vec![row("EMP", "TABLE"), row("PKG", "PACKAGE BODY")];
    assert_eq!(
        parse_object_rows(&rows).unwrap(),
        vec![obj("EMP", ObjectKind::Table), obj("PKG", ObjectKind::PackageBody)]
    );
}

#[test]
fn unsupported_row_type_is_an_error() {
    let rows = vec![row("EMP", "TABLE"), row("J", "JOB"), row("Q", "QUEUE")];
    assert_eq!(
        parse_object_rows(&rows).unwrap_err(),
        Error::UnsupportedObjectType("JOB".to_string())
    );
}

#[test]
fn dependent_objects_keep_listed_tables_sorted_once() {
    let objects = vec![
        obj("ZED", ObjectKind::Table),
        obj("EMP", ObjectKind::Table),
        obj("V1", ObjectKind::View),
        obj("PKG", ObjectKind::PackageSpec),
    ];
    let names = vec![
        "ZED".to_string(),
        "PKG".to_string(),
        "EMP".to_string(),
        "OTHER".to_string(),
        "EMP".to_string(),
        "V1".to_string(),
    ];
    assert_eq!(
        dependent_objects(&objects, &names, ObjectKind::ObjectComment),
        vec![
            obj("EMP", ObjectKind::ObjectComment),
            obj("V1", ObjectKind::ObjectComment),
            obj("ZED", ObjectKind::ObjectComment),
        ]
    );
    assert!(has_dependent_metadata_base(&objects));
    assert!(!has_dependent_metadata_base(&vec![obj("PKG", ObjectKind::PackageSpec)]));
}

#[test]
fn grants_match_name_and_kind() {
    let objects = vec![obj("EMP", ObjectKind::Table), obj("PKG", ObjectKind::PackageSpec)];
    let rows = vec![
        row("PKG", "PACKAGE"),
        row("EMP", "VIEW"),
        row("EMP", "TABLE"),
        row("X", "JOB"),
        row("PKG", "PACKAGE"),
    ];
    assert_eq!(
        grant_objects(&objects, &rows),
        vec![obj("EMP", ObjectKind::ObjectGrant), obj("PKG", ObjectKind::ObjectGrant)]
    );
}

#[test]
fn dependent_listing_follows_the_selection() {
    let selection = ObjectSelection::from_selectors(
        &["grants,ref-constraints".to_string()],
        &[],
    )
    .unwrap();
    assert_eq!(
        dependent_listing_plan(&selection),
        vec![ObjectKind::RefConstraint, ObjectKind::ObjectGrant]
    );
    assert_eq!(dependent_listing_sql(ObjectKind::RefConstraint), Some(LIST_REF_CONSTRAINTS_SQL));
    assert_eq!(dependent_listing_sql(ObjectKind::ObjectGrant), Some(LIST_OBJECT_GRANTS_SQL));
    assert_eq!(dependent_listing_sql(ObjectKind::Table), None);
    assert!(dependent_listing_plan(&ObjectSelection::default()).is_empty());
}

#[test]
fn metadata_transforms_depend_on_lossless() {
    assert_eq!(
        metadata_transform_plan(MetadataOptions::default()),
        vec![
            ("SEGMENT_ATTRIBUTES", false),
            ("SQLTERMINATOR", true),
            ("PRETTY", true),
            ("EMIT_SCHEMA", false)
        ]
    );
    assert_eq!(
        metadata_transform_plan(MetadataOptions { lossless: true }),
        vec![("SQLTERMINATOR", true), ("PRETTY", true)]
    );
    assert_eq!(
        transform_param_sql("PRETTY", true),
        "BEGIN DBMS_METADATA.SET_TRANSFORM_PARAM(DBMS_METADATA.SESSION_TRANSFORM, 'PRETTY', TRUE); END;"
    );
    assert_eq!(
        transform_param_sql("EMIT_SCHEMA", false),
        "BEGIN DBMS_METADATA.SET_TRANSFORM_PARAM(DBMS_METADATA.SESSION_TRANSFORM, 'EMIT_SCHEMA', FALSE); END;"
    );
}

#[test]
fn transform_errors_are_tolerated_only_when_unsupported() {
    assert!(is_unsupported_metadata_transform(Some(31602)));
    assert!(!is_unsupported_metadata_transform(Some(31603)));
    assert!(!is_unsupported_metadata_transform(None));
    let applied = transform_result("PRETTY", None).unwrap();
    assert!(applied.applied);
    let skipped =
        transform_result("EMIT_SCHEMA", Some((Some(31600), Some("bad".to_string())))).unwrap();
    assert!(!skipped.applied);
    assert_eq!(skipped.error_code, Some(31600));
    assert_eq!(skipped.error_message, Some("bad".to_string()));
    assert!(transform_result("PRETTY", Some((Some(942), None))).is_none());
    assert!(is_missing_or_forbidden(Some(942)));
    assert!(is_missing_or_forbidden(Some(1031)));
    assert!(!is_missing_or_forbidden(Some(31600)));
}

#[test]
fn ddl_queries_by_kind() {
    assert_eq!(ddl_query_sql(ObjectKind::Table), GET_DDL_SQL);
    assert_eq!(ddl_query_sql(ObjectKind::ObjectComment), GET_DEPENDENT_DDL_SQL);
    assert_eq!(non_blank(Some("  ".to_string())), None);
    assert_eq!(non_blank(Some("XEPDB1".to_string())), Some("XEPDB1".to_string()));
    assert_eq!(non_blank(None), None);
}

fn names(v: &[&str]) -> Vec<String> {
    v.iter().map(|s| s.to_string()).collect()
}

#[test]
fn dependent_groups_follow_the_listed_objects_in_order() {
    let objects = vec![
        obj("V", ObjectKind::View),
        obj("EMP", ObjectKind::Table),
        obj("PKG", ObjectKind::PackageSpec),
    ];
    let selection = ObjectSelection::from_selectors(
        &["constraints,comments,grants".to_string()],
        &[],
    )
    .unwrap();
    let rows = DependentRows {
        constraints: names(&["EMP", "X", "EMP"]),
        ref_constraints: names(&["V"]),
        comments: names(&["V", "EMP", "PKG"]),
        grants: vec![row("PKG", "PACKAGE"), row("EMP", "TABLE"), row("Z", "TABLE")],
    };
    assert_eq!(
        join_dependent_objects(objects, &selection, &rows),
        vec![
            obj("V", ObjectKind::View),
            obj("EMP", ObjectKind::Table),
            obj("PKG", ObjectKind::PackageSpec),
            obj("EMP", ObjectKind::ObjectConstraint),
            obj("V", ObjectKind::RefConstraint),
            obj("EMP", ObjectKind::ObjectComment),
            obj("V", ObjectKind::ObjectComment),
            obj("EMP", ObjectKind::ObjectGrant),
            obj("PKG", ObjectKind::ObjectGrant),
        ]
    );
}

#[test]
fn unselected_dependent_groups_add_nothing() {
    let objects = vec![obj("EMP", ObjectKind::Table)];
    let rows = DependentRows {
        constraints: names(&["EMP"]),
        ref_constraints: names(&["EMP"]),
        comments: names(&["EMP"]),
        grants: vec![row("EMP", "TABLE")],
    };
    assert_eq!(
        join_dependent_objects(objects.clone(), &ObjectSelection::default(), &rows),
        objects
    );
}

#[test]
fn dependent_queries_run_only_when_they_can_add_objects() {
    let tables = vec![obj("EMP", ObjectKind::Table)];
    let packages = vec![obj("PKG", ObjectKind::PackageSpec)];
    assert!(dependent_query_needed(&tables, ObjectKind::ObjectConstraint));
    assert!(!dependent_query_needed(&packages, ObjectKind::ObjectComment));
    assert!(dependent_query_needed(&packages, ObjectKind::ObjectGrant));
    assert!(!dependent_query_needed(&Vec::new(), ObjectKind::ObjectGrant));
}
