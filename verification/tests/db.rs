use oracode::error::Error;
use oracode::kind::ObjectKind;
use oracode::schema::{schema_lookup_candidates, schema_lookup_value, schema_resolution};
use oracode::selection::ObjectSelection;
use oracode::sql::{
    build_list_object_comments_sql, build_list_object_constraints_sql,
    build_list_object_grants_sql, build_list_objects_sql, DbCapabilities,
};

#[test]
fn maps_oracle_object_types_to_metadata_types() {
    assert_eq!(
        ObjectKind::from_all_objects_type("PACKAGE")
            .unwrap()
            .metadata_type(),
        "PACKAGE_SPEC"
    );
    assert_eq!(
        ObjectKind::from_all_objects_type("PACKAGE BODY")
            .unwrap()
            .metadata_type(),
        "PACKAGE_BODY"
    );
    assert_eq!(
        ObjectKind::from_all_objects_type("TABLE")
            .unwrap()
            .output_dir(),
        "TABLE"
    );
}

#[test]
fn maps_all_supported_oracle_object_types_to_metadata_types_and_output_dirs() {
    let mappings = [
        ("TABLE", ObjectKind::Table, "TABLE"),
        ("VIEW", ObjectKind::View, "VIEW"),
        ("PROCEDURE", ObjectKind::Procedure, "PROCEDURE"),
        ("FUNCTION", ObjectKind::Function, "FUNCTION"),
        ("PACKAGE", ObjectKind::PackageSpec, "PACKAGE_SPEC"),
        ("PACKAGE BODY", ObjectKind::PackageBody, "PACKAGE_BODY"),
        ("TRIGGER", ObjectKind::Trigger, "TRIGGER"),
        ("SEQUENCE", ObjectKind::Sequence, "SEQUENCE"),
        ("TYPE", ObjectKind::TypeSpec, "TYPE_SPEC"),
        ("TYPE BODY", ObjectKind::TypeBody, "TYPE_BODY"),
        ("INDEX", ObjectKind::Index, "INDEX"),
        ("SYNONYM", ObjectKind::Synonym, "SYNONYM"),
        (
            "MATERIALIZED VIEW",
            ObjectKind::MaterializedView,
            "MATERIALIZED_VIEW",
        ),
        ("DATABASE LINK", ObjectKind::DatabaseLink, "DB_LINK"),
    ];

    for (all_objects_type, expected_kind, expected_metadata_type) in mappings {
        let kind = ObjectKind::from_all_objects_type(all_objects_type);

        assert_eq!(kind, Some(expected_kind));
        assert_eq!(expected_kind.metadata_type(), expected_metadata_type);
        assert_eq!(expected_kind.output_dir(), expected_metadata_type);
    }
    assert_eq!(ObjectKind::ObjectConstraint.metadata_type(), "CONSTRAINT");
    assert_eq!(ObjectKind::ObjectConstraint.output_dir(), "CONSTRAINT");
    assert_eq!(ObjectKind::RefConstraint.metadata_type(), "REF_CONSTRAINT");
    assert_eq!(ObjectKind::RefConstraint.output_dir(), "REF_CONSTRAINT");
    assert_eq!(ObjectKind::ObjectComment.metadata_type(), "COMMENT");
    assert_eq!(ObjectKind::ObjectComment.output_dir(), "COMMENT");
    assert_eq!(ObjectKind::ObjectGrant.metadata_type(), "OBJECT_GRANT");
    assert_eq!(ObjectKind::ObjectGrant.output_dir(), "OBJECT_GRANT");
}

#[test]
fn rejects_unsupported_or_differently_cased_object_types() {
    for object_type in [
        "",
        "CONSTRAINT",
        "COMMENT",
        "REF_CONSTRAINT",
        "OBJECT_GRANT",
        "table",
        "Package Body",
    ] {
        assert_eq!(ObjectKind::from_all_objects_type(object_type), None);
    }
}

#[test]
fn default_selection_keeps_existing_core_object_set() {
    let selection = ObjectSelection::default();

    for kind in [
        ObjectKind::Table,
        ObjectKind::View,
        ObjectKind::Procedure,
        ObjectKind::Function,
        ObjectKind::PackageSpec,
        ObjectKind::PackageBody,
        ObjectKind::Trigger,
        ObjectKind::Sequence,
        ObjectKind::TypeSpec,
        ObjectKind::TypeBody,
    ] {
        assert!(selection.contains(kind));
    }
    assert!(!selection.contains(ObjectKind::Index));
    assert!(!selection.contains(ObjectKind::Synonym));
    assert!(!selection.contains(ObjectKind::MaterializedView));
    assert!(!selection.contains(ObjectKind::DatabaseLink));
    assert!(!selection.contains(ObjectKind::ObjectConstraint));
    assert!(!selection.contains(ObjectKind::RefConstraint));
    assert!(!selection.contains(ObjectKind::ObjectComment));
    assert!(!selection.contains(ObjectKind::ObjectGrant));
}

#[test]
fn include_and_exclude_selectors_are_applied_deterministically() {
    let selection = ObjectSelection::from_selectors(
        &[
            "indexes,synonyms".to_string(),
            "mviews,grants,constraints,comments".to_string(),
        ],
        &["trigger,type-body,ref-constraints".to_string()],
    )
    .unwrap();

    assert!(selection.contains(ObjectKind::Index));
    assert!(selection.contains(ObjectKind::Synonym));
    assert!(selection.contains(ObjectKind::MaterializedView));
    assert!(selection.contains(ObjectKind::ObjectConstraint));
    assert!(selection.contains(ObjectKind::ObjectComment));
    assert!(selection.contains(ObjectKind::ObjectGrant));
    assert!(!selection.contains(ObjectKind::Trigger));
    assert!(!selection.contains(ObjectKind::TypeBody));
    assert!(!selection.contains(ObjectKind::RefConstraint));
}

#[test]
fn rejects_unknown_object_selector() {
    assert!(ObjectSelection::from_selectors(&["unknown".to_string()], &[]).is_err());
}

#[test]
fn list_objects_sql_avoids_12c_identity_view_when_unavailable() {
    let capabilities = DbCapabilities::default();
    let sql = build_list_objects_sql(&capabilities, &ObjectSelection::default());

    assert!(sql.contains("FROM all_objects o"));
    assert!(sql.contains("o.owner = :schema"));
    assert!(!sql.contains("UPPER(:schema)"));
    assert!(!sql.contains("all_tab_identity_cols"));
    assert!(sql.contains("ISEQ$$\\_%"));
}

#[test]
fn list_objects_sql_uses_identity_view_when_available() {
    let capabilities = DbCapabilities {
        has_all_tab_identity_cols: true,
        ..DbCapabilities::default()
    };
    let sql = build_list_objects_sql(&capabilities, &ObjectSelection::default());

    assert!(sql.contains("all_tab_identity_cols"));
    assert!(sql.contains("identity_cols.sequence_name = o.object_name"));
}

#[test]
fn list_objects_sql_filters_constraint_owned_indexes_when_included() {
    let selection = ObjectSelection::from_selectors(&["index".to_string()], &[]).unwrap();
    let sql = build_list_objects_sql(&DbCapabilities::default(), &selection);

    assert!(sql.contains("'INDEX'"));
    assert!(sql.contains("FROM all_constraints c"));
    assert!(sql.contains("c.index_name = o.object_name"));
}

#[test]
fn list_objects_sql_does_not_treat_object_grants_as_all_objects_rows() {
    let selection =
        ObjectSelection::from_selectors(&["grants,constraints,comments".to_string()], &[])
            .unwrap();
    let sql = build_list_objects_sql(&DbCapabilities::default(), &selection);

    assert!(sql.contains("'TABLE'"));
    assert!(!sql.contains("'OBJECT_GRANT'"));
    assert!(!sql.contains("'CONSTRAINT'"));
    assert!(!sql.contains("'REF_CONSTRAINT'"));
    assert!(!sql.contains("'COMMENT'"));
}

#[test]
fn object_grants_sql_lists_grants_on_schema_owned_supported_objects() {
    let sql = build_list_object_grants_sql();

    assert!(sql.contains("FROM all_tab_privs p"));
    assert!(sql.contains("JOIN all_objects o"));
    assert!(sql.contains("p.table_schema = :schema"));
    assert!(sql.contains("'MATERIALIZED VIEW'"));
    assert!(!sql.contains("'PACKAGE BODY'"));
    assert!(sql.contains("ORDER BY o.object_type, p.table_name"));
}

#[test]
fn constraints_sql_splits_normal_and_ref_constraints() {
    let normal = build_list_object_constraints_sql(false);
    let refs = build_list_object_constraints_sql(true);

    assert!(normal.contains("FROM all_constraints"));
    assert!(normal.contains("constraint_type != 'R'"));
    assert!(normal.contains("constraint_name NOT LIKE 'BIN$%'"));
    assert!(refs.contains("constraint_type = 'R'"));
    assert!(refs.contains("ORDER BY table_name"));
}

#[test]
fn comments_sql_lists_table_and_column_comments() {
    let sql = build_list_object_comments_sql();

    assert!(sql.contains("FROM all_tab_comments"));
    assert!(sql.contains("FROM all_col_comments"));
    assert!(sql.contains("comments IS NOT NULL"));
    assert!(sql.contains("ORDER BY table_name"));
}

#[test]
fn schema_lookup_preserves_explicitly_quoted_schema() {
    assert_eq!(
        schema_lookup_value("\"MixedCase\""),
        ("MixedCase".to_string(), true)
    );
    assert_eq!(
        schema_lookup_value("\"A\"\"B\""),
        ("A\"B".to_string(), true)
    );
    assert_eq!(schema_lookup_value("hr"), ("hr".to_string(), false));
}

#[test]
fn default_listing_sql_is_exact() {
    let sql = build_list_objects_sql(&DbCapabilities::default(), &ObjectSelection::default());
    let expected = "\n            SELECT o.object_name, o.object_type\n            FROM all_objects o\n            WHERE o.owner = :schema\n              AND o.object_type IN ('FUNCTION', 'PACKAGE', 'PACKAGE BODY', 'PROCEDURE', 'SEQUENCE', 'TABLE', 'TRIGGER', 'TYPE', 'TYPE BODY', 'VIEW')\n              AND o.object_name NOT LIKE 'BIN$%'\n              AND (\n                o.object_type != 'SEQUENCE'\n                OR o.object_name NOT LIKE 'ISEQ$$\\_%' ESCAPE '\\'\n              )\n            ORDER BY o.object_type, o.object_name\n        ";
    assert_eq!(sql, expected);
}

#[test]
fn listing_sql_for_only_dependent_kinds_selects_nothing() {
    let selection =
        ObjectSelection::from_selectors(&["grants".to_string()], &["all".to_string()]).unwrap();
    let sql = build_list_objects_sql(&DbCapabilities::default(), &selection);
    assert!(sql.contains("AND 1 = 0"));
    let only_grants =
        ObjectSelection::from_selectors(&["grants".to_string()], &["core".to_string()]).unwrap();
    assert!(only_grants.contains(ObjectKind::ObjectGrant));
    let sql = build_list_objects_sql(&DbCapabilities::default(), &only_grants);
    assert!(sql.contains("AND 1 = 0"));
}

#[test]
fn selectors_are_case_insensitive_and_accept_underscores() {
    let selection = ObjectSelection::from_selectors(
        &[" Materialized_Views , DB_LINKS,,".to_string()],
        &["PACKAGE-BODIES".to_string()],
    )
    .unwrap();
    assert!(selection.contains(ObjectKind::MaterializedView));
    assert!(selection.contains(ObjectKind::DatabaseLink));
    assert!(selection.contains(ObjectKind::PackageSpec));
    assert!(!selection.contains(ObjectKind::PackageBody));
}

#[test]
fn all_and_core_selectors() {
    let everything = ObjectSelection::from_selectors(&["all".to_string()], &[]).unwrap();
    assert!(everything.contains(ObjectKind::ObjectGrant));
    assert!(everything.contains(ObjectKind::DatabaseLink));
    let nothing_core = ObjectSelection::from_selectors(&["all".to_string()], &["core".to_string()]).unwrap();
    assert!(!nothing_core.contains(ObjectKind::Table));
    assert!(nothing_core.contains(ObjectKind::Index));
}

#[test]
fn excludes_win_over_includes() {
    let selection =
        ObjectSelection::from_selectors(&["indexes".to_string()], &["index".to_string()]).unwrap();
    assert!(!selection.contains(ObjectKind::Index));
}

#[test]
fn unknown_selector_reports_the_first_normalised_token() {
    let err = ObjectSelection::from_selectors(
        &["tables, Bogus_Kind".to_string()],
        &["also-bad".to_string()],
    )
    .unwrap_err();
    assert_eq!(err, Error::InvalidObjectSelector("bogus-kind".to_string()));
    let err = ObjectSelection::from_selectors(&["tables".to_string()], &["also_bad".to_string()])
        .unwrap_err();
    assert_eq!(err, Error::InvalidObjectSelector("also-bad".to_string()));
}

#[test]
fn schema_lookup_trims_only_to_detect_quotes() {
    assert_eq!(schema_lookup_value("  \"Ab\"  "), ("Ab".to_string(), true));
    assert_eq!(schema_lookup_value(" hr "), (" hr ".to_string(), false));
    assert_eq!(schema_lookup_value("\""), ("\"".to_string(), false));
    assert_eq!(schema_lookup_value("\"\""), ("".to_string(), true));
}

#[test]
fn schema_candidates_add_upper_case_for_unquoted_names() {
    assert_eq!(
        schema_lookup_candidates("hr"),
        vec!["hr".to_string(), "HR".to_string()]
    );
    assert_eq!(schema_lookup_candidates("HR"), vec!["HR".to_string()]);
    assert_eq!(
        schema_lookup_candidates("\"MixedCase\""),
        vec!["MixedCase".to_string()]
    );
}

#[test]
fn kind_names_round_trip() {
    for kind in [
        ObjectKind::Table,
        ObjectKind::View,
        ObjectKind::Procedure,
        ObjectKind::Function,
        ObjectKind::PackageSpec,
        ObjectKind::PackageBody,
        ObjectKind::Trigger,
        ObjectKind::Sequence,
        ObjectKind::TypeSpec,
        ObjectKind::TypeBody,
        ObjectKind::Index,
        ObjectKind::Synonym,
        ObjectKind::MaterializedView,
        ObjectKind::DatabaseLink,
    ] {
        assert_eq!(ObjectKind::from_all_objects_type(kind.all_objects_type()), Some(kind));
        assert_eq!(kind.list_query_object_type(), Some(kind.all_objects_type()));
    }
    assert_eq!(ObjectKind::ObjectGrant.list_query_object_type(), None);
}

#[test]
fn schema_resolution_takes_the_first_owner_found() {
    assert_eq!(
        schema_resolution("hr", &vec![None, Some("HR".to_string())]),
        Ok("HR".to_string())
    );
    assert_eq!(
        schema_resolution("hr", &vec![Some("hr".to_string()), Some("HR".to_string())]),
        Ok("hr".to_string())
    );
    assert_eq!(
        schema_resolution(" \"Mixed\" ", &vec![None]),
        Err(Error::SchemaNotFound("Mixed".to_string()))
    );
    assert_eq!(
        schema_resolution("hr", &vec![None, None]),
        Err(Error::SchemaNotFound("hr".to_string()))
    );
}
