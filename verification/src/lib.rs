//! Verified core of `oracode`, which exports the objects of an Oracle schema
//! as clean, stable DDL files, one file per object: which objects are
//! selected and listed, how their DDL is cleaned, where each file goes, and
//! when a file is rewritten.

pub mod cli;
pub mod db;
pub mod error;
pub mod export;
pub mod keywords;
pub mod kind;
pub mod metadata;
pub mod objects;
pub mod sanitize;
pub mod schema;
pub mod selection;
pub mod sql;
pub mod text;

pub use cli::Cli;
pub use error::{Error, Result};
