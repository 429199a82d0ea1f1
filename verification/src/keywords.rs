//! The SQL keywords that DDL normalisation writes in upper case.

use vstd::prelude::*;

use crate::text::chars_equal_str;

verus! {

/// Whether `w` is one of the SQL keywords that are normalised to upper case.
pub open spec fn is_keyword(w: Seq<char>) -> bool {
    ||| w == "ADD"@
    ||| w == "ALTER"@
    ||| w == "AND"@
    ||| w == "AS"@
    ||| w == "BEGIN"@
    ||| w == "BLOB"@
    ||| w == "BODY"@
    ||| w == "BOOLEAN"@
    ||| w == "BY"@
    ||| w == "CASE"@
    ||| w == "CHAR"@
    ||| w == "CHECK"@
    ||| w == "CLOB"@
    ||| w == "COMMENT"@
    ||| w == "CONSTRAINT"@
    ||| w == "CREATE"@
    ||| w == "DATE"@
    ||| w == "DEFAULT"@
    ||| w == "DELETE"@
    ||| w == "DISABLE"@
    ||| w == "ELSE"@
    ||| w == "ENABLE"@
    ||| w == "END"@
    ||| w == "FOR"@
    ||| w == "FOREIGN"@
    ||| w == "FROM"@
    ||| w == "FUNCTION"@
    ||| w == "GRANT"@
    ||| w == "GROUP"@
    ||| w == "IF"@
    ||| w == "IN"@
    ||| w == "INDEX"@
    ||| w == "INTEGER"@
    ||| w == "INSERT"@
    ||| w == "IS"@
    ||| w == "KEY"@
    ||| w == "LIKE"@
    ||| w == "LOB"@
    ||| w == "NCHAR"@
    ||| w == "NCLOB"@
    ||| w == "NUMBER"@
    ||| w == "NVARCHAR2"@
    ||| w == "NOT"@
    ||| w == "NULL"@
    ||| w == "ON"@
    ||| w == "OR"@
    ||| w == "ORDER"@
    ||| w == "PACKAGE"@
    ||| w == "PRIMARY"@
    ||| w == "PROCEDURE"@
    ||| w == "REFERENCES"@
    ||| w == "REPLACE"@
    ||| w == "RETURN"@
    ||| w == "ROWID"@
    ||| w == "RAW"@
    ||| w == "SELECT"@
    ||| w == "SEQUENCE"@
    ||| w == "STORE"@
    ||| w == "TABLE"@
    ||| w == "TABLESPACE"@
    ||| w == "THEN"@
    ||| w == "TIMESTAMP"@
    ||| w == "TRIGGER"@
    ||| w == "TYPE"@
    ||| w == "UNIQUE"@
    ||| w == "UPDATE"@
    ||| w == "VALUES"@
    ||| w == "VARCHAR"@
    ||| w == "VARCHAR2"@
    ||| w == "VIEW"@
    ||| w == "WHEN"@
    ||| w == "WHERE"@
}

/// Whether the characters `w` form one of the normalised SQL keywords.
pub fn is_keyword_chars(w: &Vec<char>) -> (r: bool)
    ensures
        r == is_keyword(w@),
{
    false
        || chars_equal_str(w, "ADD")
        || chars_equal_str(w, "ALTER")
        || chars_equal_str(w, "AND")
        || chars_equal_str(w, "AS")
        || chars_equal_str(w, "BEGIN")
        || chars_equal_str(w, "BLOB")
        || chars_equal_str(w, "BODY")
        || chars_equal_str(w, "BOOLEAN")
        || chars_equal_str(w, "BY")
        || chars_equal_str(w, "CASE")
        || chars_equal_str(w, "CHAR")
        || chars_equal_str(w, "CHECK")
        || chars_equal_str(w, "CLOB")
        || chars_equal_str(w, "COMMENT")
        || chars_equal_str(w, "CONSTRAINT")
        || chars_equal_str(w, "CREATE")
        || chars_equal_str(w, "DATE")
        || chars_equal_str(w, "DEFAULT")
        || chars_equal_str(w, "DELETE")
        || chars_equal_str(w, "DISABLE")
        || chars_equal_str(w, "ELSE")
        || chars_equal_str(w, "ENABLE")
        || chars_equal_str(w, "END")
        || chars_equal_str(w, "FOR")
        || chars_equal_str(w, "FOREIGN")
        || chars_equal_str(w, "FROM")
        || chars_equal_str(w, "FUNCTION")
        || chars_equal_str(w, "GRANT")
        || chars_equal_str(w, "GROUP")
        || chars_equal_str(w, "IF")
        || chars_equal_str(w, "IN")
        || chars_equal_str(w, "INDEX")
        || chars_equal_str(w, "INTEGER")
        || chars_equal_str(w, "INSERT")
        || chars_equal_str(w, "IS")
        || chars_equal_str(w, "KEY")
        || chars_equal_str(w, "LIKE")
        || chars_equal_str(w, "LOB")
        || chars_equal_str(w, "NCHAR")
        || chars_equal_str(w, "NCLOB")
        || chars_equal_str(w, "NUMBER")
        || chars_equal_str(w, "NVARCHAR2")
        || chars_equal_str(w, "NOT")
        || chars_equal_str(w, "NULL")
        || chars_equal_str(w, "ON")
        || chars_equal_str(w, "OR")
        || chars_equal_str(w, "ORDER")
        || chars_equal_str(w, "PACKAGE")
        || chars_equal_str(w, "PRIMARY")
        || chars_equal_str(w, "PROCEDURE")
        || chars_equal_str(w, "REFERENCES")
        || chars_equal_str(w, "REPLACE")
        || chars_equal_str(w, "RETURN")
        || chars_equal_str(w, "ROWID")
        || chars_equal_str(w, "RAW")
        || chars_equal_str(w, "SELECT")
        || chars_equal_str(w, "SEQUENCE")
        || chars_equal_str(w, "STORE")
        || chars_equal_str(w, "TABLE")
        || chars_equal_str(w, "TABLESPACE")
        || chars_equal_str(w, "THEN")
        || chars_equal_str(w, "TIMESTAMP")
        || chars_equal_str(w, "TRIGGER")
        || chars_equal_str(w, "TYPE")
        || chars_equal_str(w, "UNIQUE")
        || chars_equal_str(w, "UPDATE")
        || chars_equal_str(w, "VALUES")
        || chars_equal_str(w, "VARCHAR")
        || chars_equal_str(w, "VARCHAR2")
        || chars_equal_str(w, "VIEW")
        || chars_equal_str(w, "WHEN")
        || chars_equal_str(w, "WHERE")
}

} // verus!
