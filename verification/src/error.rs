//! The errors of the catalog and the storage.
use vstd::prelude::*;

use crate::catalog::{TableName, TableSchemaError};

verus! {

#[verifier::external_type_specification]
#[verifier::external_body]
pub struct ExIoError(std::io::Error);


/// Everything that can go wrong with the catalog, the catalog metadata and the tables.
#[derive(Debug)]
pub enum Error {
    /// A catalog could not be written out as TOML; the message of the TOML serializer.
    CatalogSerializationFailed(String),
    /// A catalog or table schema file does not hold valid TOML of the expected shape;
    /// the message of the TOML parser.
    CatalogDeserializationFailed(String),
    /// The catalog directory could not be created.
    CatalogDirCreationFailed { path: String, source: std::io::Error },
    /// There is a catalog in the directory already.
    CatalogAlreadyExists { path: String },
    /// The catalog or a table schema could not be written.
    CatalogWriteFailed { source: std::io::Error },
    /// The catalog or a table schema could not be read.
    CatalogReadFailed { source: std::io::Error },
    /// The catalog was written by a newer version.
    IncompatibleCatalogVersion,
    /// A table name is empty or not ASCII.
    InvalidTableName { name: TableName },
    /// A table schema breaks the rules that `TableSchema::validate` checks.
    InvalidTableSchema { name: TableName, errors: Vec<TableSchemaError> },
    /// A table of that name is in the catalog already.
    TableAlreadyExists { name: TableName },
    /// No table of that name is in the catalog.
    TableNotFound,
    /// The data file of a table is missing.
    TableDataNotFound,
    /// A table's data file could not be written or removed.
    TableDataWriteFailed { source: std::io::Error },
    /// A table's data file could not be read.
    TableDataReadFailed { source: std::io::Error },
    /// There is a catalog metadata file in the directory already.
    CatalogExists { path: String },
    /// The catalog metadata file could not be written.
    CatalogMetadataWriteFailed { source: std::io::Error },
    /// The catalog metadata file could not be read.
    CatalogMetadataReadFailed { source: std::io::Error },
    /// The catalog metadata file does not hold valid TOML of the expected shape;
    /// the message of the TOML parser.
    CatalogMetadataDeserializationFailed(String),
    /// The catalog metadata was written by a newer version.
    IncompatibleCatalogMetadataVersion,
}

/// The result of the library's operations.
pub type Result<T> = core::result::Result<T, Error>;

} // verus!
