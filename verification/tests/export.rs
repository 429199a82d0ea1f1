use oracode::error::Error;
use oracode::export::{
    export_settings, file_stem, output_dir_path, output_dir_path_with_separator, output_path,
    output_path_with_separator, reject_filename_collisions,
    reject_filename_collisions_with_separator,
    summarize, write_outcome, ExportSummary, WriteOutcome,
};
use oracode::cli::{Cli, DatabaseName};
use oracode::kind::ObjectKind;
use oracode::objects::DbObject;

#[test]
fn sanitizes_file_stems() {
    assert_eq!(file_stem("EMPLOYEES"), "EMPLOYEES");
    assert_eq!(file_stem("Weird Name/With:Chars"), "Weird_Name_With_Chars");
    assert_eq!(file_stem(""), "_");
}

#[test]
fn rejects_filename_collisions_before_export() {
    let objects = vec![
        DbObject {
            name: "A/B".to_string(),
            kind: ObjectKind::Table,
        },
        DbObject {
            name: "A:B".to_string(),
            kind: ObjectKind::Table,
        },
    ];

    assert!(reject_filename_collisions("out", &objects).is_err());
}

#[test]
fn filename_collision_reports_both_conflicting_objects() {
    let objects = vec![
        DbObject {
            name: "A/B".to_string(),
            kind: ObjectKind::PackageSpec,
        },
        DbObject {
            name: "A:B".to_string(),
            kind: ObjectKind::PackageSpec,
        },
    ];

    let error = reject_filename_collisions("out", &objects).unwrap_err();

    match error {
        Error::FilenameCollision {
            path,
            first_object_type,
            first_object_name,
            second_object_type,
            second_object_name,
        } => {
            assert!(path.ends_with("PACKAGE_SPEC/A_B.sql"));
            assert_eq!(first_object_type, "PACKAGE_SPEC");
            assert_eq!(first_object_name, "A/B");
            assert_eq!(second_object_type, "PACKAGE_SPEC");
            assert_eq!(second_object_name, "A:B");
        }
        other => panic!("expected filename collision, got {other:?}"),
    }
}

#[test]
fn allows_same_file_stem_in_different_object_type_directories() {
    let objects = vec![
        DbObject {
            name: "EMPLOYEES".to_string(),
            kind: ObjectKind::Table,
        },
        DbObject {
            name: "EMPLOYEES".to_string(),
            kind: ObjectKind::View,
        },
    ];

    reject_filename_collisions("out", &objects).unwrap();
}

#[test]
fn collision_names_the_first_taken_file() {
    let objects = vec![
        DbObject { name: "X".to_string(), kind: ObjectKind::Table },
        DbObject { name: "A B".to_string(), kind: ObjectKind::View },
        DbObject { name: "A_B".to_string(), kind: ObjectKind::View },
        DbObject { name: "A?B".to_string(), kind: ObjectKind::View },
    ];
    match reject_filename_collisions("root/", &objects).unwrap_err() {
        Error::FilenameCollision { path, first_object_name, second_object_name, .. } => {
            assert_eq!(path, "root/VIEW/A_B.sql");
            assert_eq!(first_object_name, "A B");
            assert_eq!(second_object_name, "A_B");
        }
        other => panic!("expected filename collision, got {other:?}"),
    }
}

#[test]
fn output_paths_follow_kind_directories() {
    let object = DbObject { name: "EMP/DETAIL:VIEW".to_string(), kind: ObjectKind::View };
    assert_eq!(output_path("out", &object), "out/VIEW/EMP_DETAIL_VIEW.sql");
    assert_eq!(output_path("out/", &object), "out/VIEW/EMP_DETAIL_VIEW.sql");
    assert_eq!(output_path("", &object), "VIEW/EMP_DETAIL_VIEW.sql");
    let grant = DbObject { name: "EMPLOYEES".to_string(), kind: ObjectKind::ObjectGrant };
    assert_eq!(output_dir_path("out", &grant), "out/OBJECT_GRANT");
    assert_eq!(output_path("out", &grant), "out/OBJECT_GRANT/EMPLOYEES.sql");
}

#[test]
fn file_stems_are_stable() {
    for name in ["", "EMPLOYEES", "a b/c", "$#-_", "ÄÖ"] {
        let stem = file_stem(name);
        assert_eq!(file_stem(&stem), stem);
    }
    assert_eq!(file_stem("ÄÖ"), "__");
}

#[test]
fn unchanged_content_is_skipped_and_changed_content_written() {
    let contents = "CREATE TABLE EMPLOYEES;\n";
    let same = contents.as_bytes().to_vec();
    let other = b"CREATE TABLE EMPLOYEES (ID NUMBER);\n".to_vec();
    assert_eq!(write_outcome(None, contents), WriteOutcome::Written);
    assert_eq!(write_outcome(Some(&same), contents), WriteOutcome::Skipped);
    assert_eq!(write_outcome(Some(&other), contents), WriteOutcome::Written);
    assert_eq!(write_outcome(Some(&Vec::new()), ""), WriteOutcome::Skipped);
}

#[test]
fn summary_counts_every_outcome() {
    let outcomes = vec![
        WriteOutcome::Written,
        WriteOutcome::Skipped,
        WriteOutcome::Written,
    ];
    assert_eq!(
        summarize(&outcomes),
        ExportSummary { total: 3, written: 2, skipped: 1 }
    );
    assert_eq!(
        summarize(&Vec::new()),
        ExportSummary { total: 0, written: 0, skipped: 0 }
    );
}

fn cli_with(concurrency: usize, includes: &[&str], lossless: bool) -> Cli {
    Cli {
        host: "localhost".to_string(),
        port: 1521,
        user: "system".to_string(),
        password: "secret".to_string(),
        sid: None,
        service_name: Some("XE".to_string()),
        schema: "HR".to_string(),
        output: "ddl".to_string(),
        keep_quotes: false,
        concurrency,
        includes: includes.iter().map(|s| s.to_string()).collect(),
        excludes: Vec::new(),
        lossless,
    }
}

#[test]
fn export_settings_refuse_zero_concurrency() {
    let err = export_settings(&cli_with(0, &[], false)).err().unwrap();
    assert_eq!(err, Error::InvalidConcurrency);
    let err = export_settings(&cli_with(0, &["bogus"], false)).err().unwrap();
    assert_eq!(err, Error::InvalidConcurrency);
}

#[test]
fn export_settings_check_selectors_and_options() {
    let err = export_settings(&cli_with(2, &["bogus"], false)).err().unwrap();
    assert_eq!(err, Error::InvalidObjectSelector("bogus".to_string()));
    let settings = export_settings(&cli_with(2, &["synonyms"], true)).ok().unwrap();
    assert!(settings.selection.contains(ObjectKind::Synonym));
    assert!(settings.metadata_options.lossless);
    assert!(settings.sanitize_options.keep_quotes);
    assert_eq!(settings.concurrency, 2);
    assert_eq!(settings.schema, "HR");
    assert_eq!(settings.output, "ddl");
    let plain = export_settings(&cli_with(4, &[], false)).ok().unwrap();
    assert!(!plain.sanitize_options.keep_quotes);
    assert!(!plain.metadata_options.lossless);
}

#[test]
fn export_settings_carry_the_database_name() {
    let settings = export_settings(&cli_with(1, &[], false)).ok().unwrap();
    assert_eq!(settings.config.database, DatabaseName::ServiceName("XE".to_string()));
    let mut cli = cli_with(1, &[], false);
    cli.sid = Some("ORCL".to_string());
    cli.service_name = None;
    let settings = export_settings(&cli).ok().unwrap();
    assert_eq!(settings.config.database, DatabaseName::Sid("ORCL".to_string()));
}

#[test]
fn second_export_of_unchanged_files_skips_everything() {
    let contents = ["CREATE TABLE A;\n", "CREATE VIEW V AS SELECT 1 FROM dual;\n"];
    let first: Vec<WriteOutcome> = contents.iter().map(|c| write_outcome(None, c)).collect();
    assert_eq!(summarize(&first), ExportSummary { total: 2, written: 2, skipped: 0 });
    let files: Vec<Vec<u8>> = contents.iter().map(|c| c.as_bytes().to_vec()).collect();
    let second: Vec<WriteOutcome> = contents
        .iter()
        .zip(files.iter())
        .map(|(c, f)| write_outcome(Some(f), c))
        .collect();
    assert_eq!(summarize(&second), ExportSummary { total: 2, written: 0, skipped: 2 });
}

#[test]
fn paths_use_the_given_separator() {
    let object = DbObject {
        name: "EMP DETAIL".to_string(),
        kind: ObjectKind::View,
    };
    assert_eq!(output_path_with_separator("out", '\\', &object), "out\\VIEW\\EMP_DETAIL.sql");
    assert_eq!(output_path_with_separator("out/", '\\', &object), "out/VIEW\\EMP_DETAIL.sql");
    assert_eq!(output_path_with_separator("out\\", '\\', &object), "out\\VIEW\\EMP_DETAIL.sql");
    assert_eq!(output_dir_path_with_separator("", '\\', &object), "VIEW");
    assert_eq!(output_path_with_separator("out", '/', &object), "out/VIEW/EMP_DETAIL.sql");
    assert_eq!(
        output_path("out", &object),
        format!("out{0}VIEW{0}EMP_DETAIL.sql", std::path::MAIN_SEPARATOR)
    );
    assert_eq!(
        output_dir_path("out", &object),
        format!("out{}VIEW", std::path::MAIN_SEPARATOR)
    );
}

#[test]
fn collision_error_path_uses_the_given_separator() {
    let objects = vec![
        DbObject { name: "A/B".to_string(), kind: ObjectKind::Table },
        DbObject { name: "A:B".to_string(), kind: ObjectKind::Table },
    ];
    match reject_filename_collisions_with_separator("out", '\\', &objects).unwrap_err() {
        Error::FilenameCollision { path, .. } => assert_eq!(path, "out\\TABLE\\A_B.sql"),
        other => panic!("unexpected error {:?}", other),
    }
}
