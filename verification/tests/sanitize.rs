use oracode::sanitize::{
    clean_code, ensure_final_newline, normalize_keywords, sanitize_ddl, trim_trailing_whitespace,
    SanitizeOptions,
};

#[test]
fn removes_editionable_and_simple_identifier_quotes() {
    let ddl = r#"
create or replace editionable view "EMPLOYEES" as
select "EMPLOYEE_ID", "NAME" from "HR"."EMPLOYEES";
"#;

    assert_eq!(
        sanitize_ddl(ddl, SanitizeOptions { keep_quotes: false }),
        "CREATE OR REPLACE VIEW EMPLOYEES AS\nSELECT EMPLOYEE_ID, NAME FROM HR.EMPLOYEES;\n"
    );
}

#[test]
fn preserves_quotes_when_requested() {
    let ddl = r#"create table "ORDER" ("ID" number);"#;

    assert_eq!(
        sanitize_ddl(ddl, SanitizeOptions { keep_quotes: true }),
        "CREATE TABLE \"ORDER\" (\"ID\" NUMBER);\n"
    );
}

#[test]
fn does_not_normalize_string_literals_or_comments() {
    let ddl =
        "create view v as select 'select from' as text from dual -- where stays lowercase\n";

    assert_eq!(
        sanitize_ddl(ddl, SanitizeOptions { keep_quotes: false }),
        "CREATE VIEW v AS SELECT 'select from' AS text FROM dual -- where stays lowercase\n"
    );
}

#[test]
fn collapses_excessive_blank_lines() {
    let ddl =
        "create table t (id number);\n\n\n\nalter table t add constraint pk primary key (id);";

    assert_eq!(
        sanitize_ddl(ddl, SanitizeOptions { keep_quotes: false }),
        "CREATE TABLE t (id NUMBER);\n\nALTER TABLE t ADD CONSTRAINT pk PRIMARY KEY (id);\n"
    );
}

#[test]
fn keyword_normalization_skips_literals_identifiers_and_comments() {
    assert_eq!(
        normalize_keywords("select 'it''s from' from \"mixed table\" /* where */ where x"),
        "SELECT 'it''s from' FROM \"mixed table\" /* where */ WHERE x"
    );
    assert_eq!(normalize_keywords("a/*/ select */b"), "a/*/ select */b");
    assert_eq!(normalize_keywords("-- create\ncreate"), "-- create\nCREATE");
    assert_eq!(normalize_keywords("'unterminated select"), "'unterminated select");
    assert_eq!(normalize_keywords("table_name tables"), "table_name tables");
    assert_eq!(normalize_keywords("varchar2(10) nvarchar2 x$y"), "VARCHAR2(10) NVARCHAR2 x$y");
    assert_eq!(normalize_keywords("Ä select"), "Ä SELECT");
    assert_eq!(normalize_keywords("a - b / c"), "a - b / c");
}

#[test]
fn trailing_whitespace_is_removed_per_line() {
    assert_eq!(trim_trailing_whitespace("a  \nb\t\n"), "a\nb");
    assert_eq!(trim_trailing_whitespace("a\r\n\n"), "a\n");
    assert_eq!(trim_trailing_whitespace(""), "");
    assert_eq!(trim_trailing_whitespace("\n"), "");
    assert_eq!(trim_trailing_whitespace("x \n\n y "), "x\n\n y");
}

#[test]
fn final_newline_is_single() {
    assert_eq!(ensure_final_newline("\u{feff}\u{feff}  a b \n\n"), "a b\n");
    assert_eq!(ensure_final_newline(""), "\n");
    assert_eq!(ensure_final_newline(" \u{feff}a"), "\u{feff}a\n");
}

#[test]
fn sanitized_output_always_ends_with_one_newline() {
    for ddl in ["", "   ", "create table t;\n\n\n\n", "x\r\n", "\u{feff}grant select on t to u"] {
        let out = sanitize_ddl(ddl, SanitizeOptions { keep_quotes: false });
        assert!(out.ends_with('\n'));
        assert!(!out[..out.len() - 1].ends_with(char::is_whitespace));
    }
}

#[test]
fn editionable_variants_are_removed_and_mixed_case_quotes_kept() {
    assert_eq!(
        sanitize_ddl(
            "create or replace NonEditionable package \"pkg\" as end;",
            SanitizeOptions { keep_quotes: false }
        ),
        "CREATE OR REPLACE PACKAGE \"pkg\" AS END;\n"
    );
}

#[test]
fn quotes_inside_string_literals_are_kept() {
    assert_eq!(
        sanitize_ddl("select 'say \"HI\"' from dual", SanitizeOptions { keep_quotes: false }),
        "SELECT 'say \"HI\"' FROM dual\n"
    );
}

#[test]
fn editionable_inside_comments_is_kept() {
    assert_eq!(
        sanitize_ddl(
            "select x from dual -- not editionable here",
            SanitizeOptions { keep_quotes: false }
        ),
        "SELECT x FROM dual -- not editionable here\n"
    );
    assert_eq!(
        sanitize_ddl(
            "create /* editionable */ editionable view v as select 1 from dual",
            SanitizeOptions { keep_quotes: false }
        ),
        "CREATE /* editionable */ VIEW v AS SELECT 1 FROM dual\n"
    );
}

#[test]
fn editionable_inside_quoted_identifiers_is_kept() {
    assert_eq!(
        clean_code("create table \"A EDITIONABLE B\" (x number)", false),
        "create table \"A EDITIONABLE B\" (x number)"
    );
}

#[test]
fn clean_code_unquotes_only_simple_identifiers() {
    assert_eq!(clean_code("\"ABC_1$#\"", false), "ABC_1$#");
    assert_eq!(clean_code("\"ABC\"", true), "\"ABC\"");
    assert_eq!(clean_code("\"Abc\" \"1A\" \"\" \"A B\"", false), "\"Abc\" \"1A\" \"\" \"A B\"");
    assert_eq!(clean_code("'\"ABC\"' -- \"ABC\"\n\"ABC\"", false), "'\"ABC\"' -- \"ABC\"\nABC");
    assert_eq!(clean_code("a editionable b", false), "a b");
}

#[test]
fn sanitized_output_has_at_most_one_blank_line_and_clean_line_ends() {
    for ddl in [
        "a  \n \n\t\n\n  \nb   \n\n\nc",
        "create table t (id number);   \n\n\n\n\n\n",
        "x\n\n\n\n\n\ny\n \n \n \nz",
    ] {
        let out = sanitize_ddl(ddl, SanitizeOptions { keep_quotes: false });
        assert!(!out.contains("\n\n\n"));
        for line in out.split('\n') {
            assert_eq!(line, line.trim_end());
        }
        assert_eq!(out, out.trim().to_string() + "\n");
    }
    assert_eq!(
        sanitize_ddl("a  \n \n\t\n\n  \nb", SanitizeOptions { keep_quotes: false }),
        "a\n\nb\n"
    );
}

#[test]
fn clean_code_leaves_text_without_editionable_or_quotes_unchanged() {
    let text = "create or replace view v as\n  select 1 from dual -- note\n";
    assert_eq!(clean_code(text, false), text);
    assert_eq!(clean_code("create table \"T\" (\"Id\" number)", true), "create table \"T\" (\"Id\" number)");
}

#[test]
fn newline_after_line_comment_is_code_for_editionable_removal() {
    assert_eq!(clean_code("-- c\nEDITIONABLE x", false), "-- c x");
    assert_eq!(clean_code("-- c\n  editionable view v", false), "-- c view v");
    assert_eq!(clean_code("a NonEditionable\tb", false), "a b");
    assert_eq!(clean_code("a NONEDITIONABLEX b", false), "a NONEDITIONABLEX b");
}

#[test]
fn sanitize_without_editionable_or_quotes_only_normalizes() {
    assert_eq!(sanitize_ddl(" ", SanitizeOptions { keep_quotes: false }), "\n");
    assert_eq!(
        sanitize_ddl("select 1 from dual  \n\n\n\n", SanitizeOptions { keep_quotes: true }),
        "SELECT 1 FROM dual\n"
    );
}
