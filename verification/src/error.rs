//! Errors that the library's own rules produce.

use vstd::prelude::*;

verus! {

/// An error of the export rules; the driver adds the errors of the
/// database, the file system and the task runtime.
#[derive(Debug, PartialEq, Eq)]
pub enum Error {
    /// An `ALL_OBJECTS` row has an object type that is not exported.
    UnsupportedObjectType(String),
    /// The requested concurrency is zero.
    InvalidConcurrency,
    /// An object-kind selector names no known kind (the normalised token).
    InvalidObjectSelector(String),
    /// The schema does not exist (the name that was looked up).
    SchemaNotFound(String),
    /// Two objects would be written to the same file.
    FilenameCollision {
        path: String,
        first_object_type: &'static str,
        first_object_name: String,
        second_object_type: &'static str,
        second_object_name: String,
    },
}

/// The result type of the library's fallible operations.
pub type Result<T> = std::result::Result<T, Error>;

} // verus!
