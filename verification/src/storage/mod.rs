//! The storage: the catalog file, the tables directory, and the operations on tables.
//!
//! A database directory holds `catalog.toml` and a directory `tables` with,
//! for a table of id `n`, the schema `n.schema.toml` and the data file `n.data`.
use vstd::prelude::*;

pub mod laws;
pub mod operations;

pub use operations::{
    CreateCatalog, CreateTable, DescribeTable, DropTable, GetMetaInfo, ListTables, OpenTable,
};

use crate::catalog::{Catalog, StorageType, Table, TableId, TableSchema, CATALOG_LATEST_VERSION};
use crate::driver::Reply;
use crate::error::Error;
use crate::text::{decimal, decimal_string, join_path, path_join};

verus! {

/// The name of the catalog file inside the database directory.
pub const CATALOG_FILE_NAME: &'static str = "catalog.toml";

/// The name of the directory of the tables inside the database directory.
pub const TABLES_DIR_NAME: &'static str = "tables";

/// What follows a table id in the name of its schema file.
pub const SCHEMA_FILE_SUFFIX: &'static str = ".schema.toml";

/// What follows a table id in the name of its data file.
pub const DATA_FILE_SUFFIX: &'static str = ".data";

/// A database in a directory.
#[derive(Debug)]
pub struct Storage {
    pub dir: String,
}

/// What `get_meta_info` tells of a database.
#[derive(Debug)]
pub struct StorageMetaInfo {
    pub storage_type: StorageType,
    pub catalog_version: u16,
}

/// The id of a record: the page it is on and its slot in the page.
#[derive(Debug, Clone)]
pub struct Rid {
    pub page_id: u32,
    pub slot_id: u32,
}

/// A value in a tuple.
#[derive(Debug)]
pub enum TupleElement {
    Null,
    Int(i32),
    Text(String),
}

/// A row of a table.
pub type Tuple = Vec<TupleElement>;

/// The outcome of reading the catalog, from the reply to `ReadCatalog`:
/// a catalog of a version above the latest is refused.
pub open spec fn read_catalog_result(reply: Reply) -> Result<Catalog, Error> {
    match reply {
        Reply::CatalogLoaded(c) => if c.version > CATALOG_LATEST_VERSION {
            Err(Error::IncompatibleCatalogVersion)
        } else {
            Ok(c)
        },
        Reply::IoFailed(e) => Err(Error::CatalogReadFailed { source: e }),
        Reply::ParseFailed(message) => Err(Error::CatalogDeserializationFailed(message)),
        _ => Err(Error::IncompatibleCatalogVersion),
    }
}

/// The outcome of writing the catalog or a table schema, from the reply to
/// `WriteCatalog` or `WriteTableSchema`.
pub open spec fn write_result(reply: Reply) -> Result<(), Error> {
    match reply {
        Reply::SerializeFailed(message) => Err(Error::CatalogSerializationFailed(message)),
        Reply::IoFailed(e) => Err(Error::CatalogWriteFailed { source: e }),
        _ => Ok(()),
    }
}

/// The outcome of reading a table schema, from the reply to `ReadTableSchema`.
pub open spec fn read_table_schema_result(reply: Reply) -> Result<TableSchema, Error> {
    match reply {
        Reply::SchemaLoaded(s) => Ok(s),
        Reply::IoFailed(e) => Err(Error::CatalogReadFailed { source: e }),
        Reply::ParseFailed(message) => Err(Error::CatalogDeserializationFailed(message)),
        _ => Err(Error::TableDataNotFound),
    }
}

/// Maps the reply to `ReadCatalog` to the catalog read, refusing a newer version.
pub fn read_catalog(reply: Reply) -> (r: Result<Catalog, Error>)
    requires
        reply.answers_read_catalog(),
    ensures
        r == read_catalog_result(reply),
{
    match reply {
        Reply::CatalogLoaded(c) => {
            if c.version > CATALOG_LATEST_VERSION {
                Err(Error::IncompatibleCatalogVersion)
            } else {
                Ok(c)
            }
        },
        Reply::IoFailed(e) => Err(Error::CatalogReadFailed { source: e }),
        Reply::ParseFailed(message) => Err(Error::CatalogDeserializationFailed(message)),
        _ => Err(Error::IncompatibleCatalogVersion),
    }
}

/// Maps the reply to `WriteCatalog` or `WriteTableSchema` to the outcome of the write.
pub fn written(reply: Reply) -> (r: Result<(), Error>)
    requires
        reply.answers_write(),
    ensures
        r == write_result(reply),
{
    match reply {
        Reply::SerializeFailed(message) => Err(Error::CatalogSerializationFailed(message)),
        Reply::IoFailed(e) => Err(Error::CatalogWriteFailed { source: e }),
        _ => Ok(()),
    }
}

/// Maps the reply to `ReadTableSchema` to the schema read.
pub fn read_table_schema(reply: Reply) -> (r: Result<TableSchema, Error>)
    requires
        reply.answers_read_schema(),
    ensures
        r == read_table_schema_result(reply),
{
    match reply {
        Reply::SchemaLoaded(s) => Ok(s),
        Reply::IoFailed(e) => Err(Error::CatalogReadFailed { source: e }),
        Reply::ParseFailed(message) => Err(Error::CatalogDeserializationFailed(message)),
        _ => Err(Error::TableDataNotFound),
    }
}

impl Storage {
    /// The database in the directory `dir`.
    pub fn new(dir: &str) -> (r: Storage)
        ensures
            r.dir@ == dir@,
    {
        Storage { dir: String::from_str(dir) }
    }

    /// A copy of this storage.
    pub fn duplicate(&self) -> (r: Storage)
        ensures
            r == *self,
    {
        Storage { dir: self.dir.clone() }
    }

    /// The path of the catalog file.
    pub open spec fn catalog_file(self) -> Seq<char> {
        path_join(self.dir@, CATALOG_FILE_NAME@)
    }

    /// The path of the directory of the tables.
    pub open spec fn tables_path(self) -> Seq<char> {
        path_join(self.dir@, TABLES_DIR_NAME@)
    }

    /// The path of the schema file of the table of id `id`.
    pub open spec fn schema_file(self, id: u16) -> Seq<char> {
        path_join(self.tables_path(), decimal(id as nat) + SCHEMA_FILE_SUFFIX@)
    }

    /// The path of the data file of the table of id `id`.
    pub open spec fn data_file(self, id: u16) -> Seq<char> {
        path_join(self.tables_path(), decimal(id as nat) + DATA_FILE_SUFFIX@)
    }

    /// The path of the catalog file.
    pub fn catalog_path(&self) -> (r: String)
        ensures
            r@ == self.catalog_file(),
    {
        join_path(self.dir.as_str(), CATALOG_FILE_NAME)
    }

    /// The path of the directory of the tables.
    pub fn tables_dir(&self) -> (r: String)
        ensures
            r@ == self.tables_path(),
    {
        join_path(self.dir.as_str(), TABLES_DIR_NAME)
    }

    /// The path of the schema file of a table.
    pub fn table_schema_path(&self, table_id: TableId) -> (r: String)
        ensures
            r@ == self.schema_file(table_id.0),
    {
        let mut name = decimal_string(table_id.0);
        name.append(SCHEMA_FILE_SUFFIX);
        join_path(self.tables_dir().as_str(), name.as_str())
    }

    /// The path of the data file of a table.
    pub fn table_data_path(&self, table_id: TableId) -> (r: String)
        ensures
            r@ == self.data_file(table_id.0),
    {
        let mut name = decimal_string(table_id.0);
        name.append(DATA_FILE_SUFFIX);
        join_path(self.tables_dir().as_str(), name.as_str())
    }

    /// The rows of a table, of which there are none yet.
    pub fn scan(&self, table: &Table) -> (r: Result<Vec<Tuple>, Error>)
        ensures
            r matches Ok(rows) && rows@.len() == 0,
    {
        Ok(Vec::new())
    }
}

} // verus!
