//! The database-facing part of the library in one place: object kinds,
//! selections, the listing queries, the objects to export, the metadata
//! session, and schema lookup.

pub use crate::kind::ObjectKind;
pub use crate::metadata::{MetadataOptions, MetadataTransformResult};
pub use crate::objects::DbObject;
pub use crate::schema::{schema_lookup_value, unquote_schema_identifier};
pub use crate::selection::ObjectSelection;
pub use crate::sql::{
    build_list_object_comments_sql, build_list_object_constraints_sql,
    build_list_object_grants_sql, build_list_objects_sql, identity_sequence_predicate,
    DbCapabilities,
};
