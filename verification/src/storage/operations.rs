//! The operations of the storage, each a state machine over requests and replies.
use vstd::prelude::*;

use crate::catalog::table_map::{names_ascending, names_of};
use crate::catalog::{
    is_valid_name, schema_errors, valid_name, Catalog, CatalogView, Table, TableId, TableName,
    TableSchema, CATALOG_LATEST_VERSION,
};
use crate::driver::{Reply, Request, Step};
use crate::error::Error;
use crate::storage::{
    read_catalog, read_catalog_result, read_table_schema, read_table_schema_result, write_result,
    written, Storage, StorageMetaInfo,
};

verus! {

/// Creating the catalog of a new database, by the step it waits for.
pub enum CreateCatalog {
    /// Waits to learn whether the catalog file exists already.
    CheckingCatalog { storage: Storage },
    /// Waits for the database directory and the tables directory to be created.
    CreatingDirs { storage: Storage },
    /// Waits for the new catalog to be written.
    WritingCatalog,
}

impl CreateCatalog {
    /// The replies that the operation can take in its present step.
    pub open spec fn takes(self, reply: Reply) -> bool {
        match self {
            CreateCatalog::CheckingCatalog { .. } => reply.answers_check(),
            CreateCatalog::CreatingDirs { .. } => reply.answers_effect(),
            CreateCatalog::WritingCatalog => reply.answers_write(),
        }
    }

    /// How the operation goes on from its present step on `reply`: a catalog
    /// already there is refused; else the directories are created, then a new
    /// catalog is written.
    pub open spec fn steps_to(self, reply: Reply, r: Step<CreateCatalog, ()>) -> bool {
        match self {
            CreateCatalog::CheckingCatalog { storage } => match reply {
                Reply::Exists(true) => r matches Step::Done(
                    Err(Error::CatalogAlreadyExists { path }),
                ) && path@ == storage.dir@,
                _ => r matches Step::Next(
                    CreateCatalog::CreatingDirs { storage: s },
                    Request::CreateDirs(dirs),
                ) && s == storage && dirs@.len() == 2 && dirs@[0]@ == storage.dir@ && dirs@[1]@
                    == storage.tables_path(),
            },
            CreateCatalog::CreatingDirs { storage } => match reply {
                Reply::IoFailed(e) => r matches Step::Done(
                    Err(Error::CatalogDirCreationFailed { path, source }),
                ) && path@ == storage.dir@ && source == e,
                _ => r matches Step::Next(
                    CreateCatalog::WritingCatalog,
                    Request::WriteCatalog(path, catalog),
                ) && path@ == storage.catalog_file() && catalog@ == CatalogView::initial(),
            },
            CreateCatalog::WritingCatalog => r == Step::<CreateCatalog, ()>::Done(
                write_result(reply),
            ),
        }
    }

    /// Whether the operation can take `reply` in its present step.
    pub fn accepts(&self, reply: &Reply) -> (r: bool)
        ensures
            r == self.takes(*reply),
    {
        match self {
            CreateCatalog::CheckingCatalog { .. } => matches!(reply, Reply::Exists(_)),
            CreateCatalog::CreatingDirs { .. } => matches!(
                reply,
                Reply::Completed | Reply::IoFailed(_)
            ),
            CreateCatalog::WritingCatalog => matches!(
                reply,
                Reply::Completed | Reply::IoFailed(_) | Reply::SerializeFailed(_)
            ),
        }
    }

    /// Takes the answer to the present request and goes on.
    pub fn resume(self, reply: Reply) -> (r: Step<CreateCatalog, ()>)
        requires
            self.takes(reply),
        ensures
            self.steps_to(reply, r),
    {
        match self {
            CreateCatalog::CheckingCatalog { storage } => match reply {
                Reply::Exists(true) => Step::Done(
                    Err(Error::CatalogAlreadyExists { path: storage.dir }),
                ),
                _ => {
                    let mut dirs: Vec<String> = Vec::new();
                    dirs.push(storage.dir.clone());
                    dirs.push(storage.tables_dir());
                    Step::Next(CreateCatalog::CreatingDirs { storage }, Request::CreateDirs(dirs))
                },
            },
            CreateCatalog::CreatingDirs { storage } => match reply {
                Reply::IoFailed(e) => Step::Done(
                    Err(Error::CatalogDirCreationFailed { path: storage.dir, source: e }),
                ),
                _ => Step::Next(
                    CreateCatalog::WritingCatalog,
                    Request::WriteCatalog(storage.catalog_path(), Catalog::new()),
                ),
            },
            CreateCatalog::WritingCatalog => Step::Done(written(reply)),
        }
    }
}

/// Reading the catalog for `get_meta_info`: waits for the answer to `ReadCatalog`.
pub struct GetMetaInfo;

impl GetMetaInfo {
    /// How the operation finishes on `reply`: with the storage type and the
    /// version of the catalog read.
    pub open spec fn steps_to(self, reply: Reply, r: Step<GetMetaInfo, StorageMetaInfo>) -> bool {
        match read_catalog_result(reply) {
            Ok(c) => r matches Step::Done(Ok(info)) && info.storage_type == c.storage_type
                && info.catalog_version == c.version,
            Err(e) => r == Step::<GetMetaInfo, StorageMetaInfo>::Done(Err(e)),
        }
    }

    /// Whether the operation can take `reply`.
    pub fn accepts(&self, reply: &Reply) -> (r: bool)
        ensures
            r == reply.answers_read_catalog(),
    {
        matches!(reply, Reply::CatalogLoaded(_) | Reply::IoFailed(_) | Reply::ParseFailed(_))
    }

    /// Takes the catalog read and finishes.
    pub fn resume(self, reply: Reply) -> (r: Step<GetMetaInfo, StorageMetaInfo>)
        requires
            reply.answers_read_catalog(),
        ensures
            self.steps_to(reply, r),
    {
        match read_catalog(reply) {
            Ok(catalog) => Step::Done(
                Ok(
                    StorageMetaInfo {
                        storage_type: catalog.storage_type,
                        catalog_version: catalog.version,
                    },
                ),
            ),
            Err(e) => Step::Done(Err(e)),
        }
    }
}

/// Reading the catalog for `list_tables`: waits for the answer to `ReadCatalog`.
pub struct ListTables;

impl ListTables {
    /// How the operation finishes on `reply`: with the names of the tables
    /// of the catalog read, in ascending order.
    pub open spec fn steps_to(self, reply: Reply, r: Step<ListTables, Vec<TableName>>) -> bool {
        match read_catalog_result(reply) {
            Ok(c) => r matches Step::Done(Ok(names)) && names_ascending(names_of(names@))
                && forall|k: Seq<char>| c@.tables.contains_key(k) <==> names_of(names@).contains(k),
            Err(e) => r == Step::<ListTables, Vec<TableName>>::Done(Err(e)),
        }
    }

    /// Whether the operation can take `reply`.
    pub fn accepts(&self, reply: &Reply) -> (r: bool)
        ensures
            r == reply.answers_read_catalog(),
    {
        matches!(reply, Reply::CatalogLoaded(_) | Reply::IoFailed(_) | Reply::ParseFailed(_))
    }

    /// Takes the catalog read and finishes.
    pub fn resume(self, reply: Reply) -> (r: Step<ListTables, Vec<TableName>>)
        requires
            reply.answers_read_catalog(),
        ensures
            self.steps_to(reply, r),
    {
        match read_catalog(reply) {
            Ok(catalog) => Step::Done(Ok(catalog.tables.keys())),
            Err(e) => Step::Done(Err(e)),
        }
    }
}


/// Creating a table, by the step it waits for.
pub enum CreateTable {
    /// Waits for the catalog, to add the table to it.
    ReadingCatalog { storage: Storage, name: TableName, schema: TableSchema },
    /// Waits for the schema of the new table to be written.
    WritingSchema { storage: Storage, catalog: Catalog, id: TableId },
    /// Waits for the empty data file of the new table to be created.
    CreatingData { storage: Storage, catalog: Catalog, id: TableId },
    /// Waits for the catalog with the new table to be written.
    WritingCatalog,
}

impl CreateTable {
    /// The replies that the operation can take in its present step. Adding a
    /// table to a catalog whose next id is `u16::MAX` overflows the id, which
    /// the operation does not take.
    pub open spec fn takes(self, reply: Reply) -> bool {
        match self {
            CreateTable::ReadingCatalog { name, .. } => {
                &&& reply.answers_read_catalog()
                &&& reply matches Reply::CatalogLoaded(c) ==> (c.version <= CATALOG_LATEST_VERSION
                    && !c@.tables.contains_key(name.0@) ==> c.next_table_id.0 < u16::MAX)
            },
            CreateTable::WritingSchema { .. } => reply.answers_write(),
            CreateTable::CreatingData { .. } => reply.answers_effect(),
            CreateTable::WritingCatalog => reply.answers_write(),
        }
    }

    /// How the operation goes on from its present step on `reply`: the table
    /// is added to the catalog read, under the next id, unless the catalog
    /// has it already; then its schema is written, its data file created, and
    /// the catalog written.
    pub open spec fn steps_to(self, reply: Reply, r: Step<CreateTable, ()>) -> bool {
        match self {
            CreateTable::ReadingCatalog { storage, name, schema } => match read_catalog_result(
                reply,
            ) {
                Err(e) => r == Step::<CreateTable, ()>::Done(Err(e)),
                Ok(c) => if c@.tables.contains_key(name.0@) {
                    r == Step::<CreateTable, ()>::Done(Err(Error::TableAlreadyExists { name }))
                } else {
                    r matches Step::Next(
                        CreateTable::WritingSchema { storage: s, catalog, id },
                        Request::WriteTableSchema(path, sch),
                    ) && s == storage && catalog@ == c@.with_table(name.0@) && id.0
                        == c@.next_table_id && path@ == storage.schema_file(id.0) && sch == schema
                },
            },
            CreateTable::WritingSchema { storage, catalog, id } => match write_result(reply) {
                Err(e) => r == Step::<CreateTable, ()>::Done(Err(e)),
                Ok(_) => r matches Step::Next(
                    CreateTable::CreatingData { storage: s, catalog: c, id: i },
                    Request::CreateFile(path),
                ) && s == storage && c == catalog && i == id && path@ == storage.data_file(id.0),
            },
            CreateTable::CreatingData { storage, catalog, id } => match reply {
                Reply::IoFailed(e) => r == Step::<CreateTable, ()>::Done(
                    Err(Error::TableDataWriteFailed { source: e }),
                ),
                _ => r matches Step::Next(
                    CreateTable::WritingCatalog,
                    Request::WriteCatalog(path, c),
                ) && c == catalog && path@ == storage.catalog_file(),
            },
            CreateTable::WritingCatalog => r == Step::<CreateTable, ()>::Done(write_result(reply)),
        }
    }

    /// Whether the operation can take `reply` in its present step.
    pub fn accepts(&self, reply: &Reply) -> (r: bool)
        ensures
            r == self.takes(*reply),
    {
        match self {
            CreateTable::ReadingCatalog { name, .. } => match reply {
                Reply::CatalogLoaded(c) => c.version > CATALOG_LATEST_VERSION
                    || c.tables.contains_key(name) || c.next_table_id.0 < u16::MAX,
                Reply::IoFailed(_) | Reply::ParseFailed(_) => true,
                _ => false,
            },
            CreateTable::WritingSchema { .. } | CreateTable::WritingCatalog => matches!(
                reply,
                Reply::Completed | Reply::IoFailed(_) | Reply::SerializeFailed(_)
            ),
            CreateTable::CreatingData { .. } => matches!(
                reply,
                Reply::Completed | Reply::IoFailed(_)
            ),
        }
    }

    /// Takes the answer to the present request and goes on.
    pub fn resume(self, reply: Reply) -> (r: Step<CreateTable, ()>)
        requires
            self.takes(reply),
        ensures
            self.steps_to(reply, r),
    {
        match self {
            CreateTable::ReadingCatalog { storage, name, schema } => match read_catalog(reply) {
                Err(e) => Step::Done(Err(e)),
                Ok(mut catalog) => match catalog.add_table(name) {
                    Err(e) => Step::Done(Err(e)),
                    Ok(id) => {
                        let path = storage.table_schema_path(id);
                        Step::Next(
                            CreateTable::WritingSchema { storage, catalog, id },
                            Request::WriteTableSchema(path, schema),
                        )
                    },
                },
            },
            CreateTable::WritingSchema { storage, catalog, id } => match written(reply) {
                Err(e) => Step::Done(Err(e)),
                Ok(()) => {
                    let path = storage.table_data_path(id);
                    Step::Next(CreateTable::CreatingData { storage, catalog, id }, Request::CreateFile(path))
                },
            },
            CreateTable::CreatingData { storage, catalog, id } => match reply {
                Reply::IoFailed(e) => Step::Done(Err(Error::TableDataWriteFailed { source: e })),
                _ => Step::Next(
                    CreateTable::WritingCatalog,
                    Request::WriteCatalog(storage.catalog_path(), catalog),
                ),
            },
            CreateTable::WritingCatalog => Step::Done(written(reply)),
        }
    }
}

/// Dropping a table, by the step it waits for.
pub enum DropTable {
    /// Waits for the catalog, to take the table out of it.
    ReadingCatalog { storage: Storage, name: TableName },
    /// Waits for the catalog without the table to be written.
    WritingCatalog { storage: Storage, id: TableId },
    /// Waits for the schema file of the table to be removed.
    RemovingSchema { storage: Storage, id: TableId },
    /// Waits for the data file of the table to be removed.
    RemovingData,
}

impl DropTable {
    /// The replies that the operation can take in its present step.
    pub open spec fn takes(self, reply: Reply) -> bool {
        match self {
            DropTable::ReadingCatalog { .. } => reply.answers_read_catalog(),
            DropTable::WritingCatalog { .. } => reply.answers_write(),
            DropTable::RemovingSchema { .. } => reply.answers_effect(),
            DropTable::RemovingData => reply.answers_effect(),
        }
    }

    /// How the operation goes on from its present step on `reply`: the table
    /// is taken out of the catalog read, the catalog is written, then the
    /// table's schema file and data file are removed.
    pub open spec fn steps_to(self, reply: Reply, r: Step<DropTable, ()>) -> bool {
        match self {
            DropTable::ReadingCatalog { storage, name } => match read_catalog_result(reply) {
                Err(e) => r == Step::<DropTable, ()>::Done(Err(e)),
                Ok(c) => match c@.table_id(name.0@) {
                    None => r == Step::<DropTable, ()>::Done(Err(Error::TableNotFound)),
                    Some(id) => r matches Step::Next(
                        DropTable::WritingCatalog { storage: s, id: i },
                        Request::WriteCatalog(path, catalog),
                    ) && s == storage && i.0 == id && catalog@ == c@.without_table(name.0@)
                        && path@ == storage.catalog_file(),
                },
            },
            DropTable::WritingCatalog { storage, id } => match write_result(reply) {
                Err(e) => r == Step::<DropTable, ()>::Done(Err(e)),
                Ok(_) => r matches Step::Next(
                    DropTable::RemovingSchema { storage: s, id: i },
                    Request::RemoveFile(path),
                ) && s == storage && i == id && path@ == storage.schema_file(id.0),
            },
            DropTable::RemovingSchema { storage, id } => match reply {
                Reply::IoFailed(e) => r == Step::<DropTable, ()>::Done(
                    Err(Error::CatalogWriteFailed { source: e }),
                ),
                _ => r matches Step::Next(DropTable::RemovingData, Request::RemoveFile(path))
                    && path@ == storage.data_file(id.0),
            },
            DropTable::RemovingData => match reply {
                Reply::IoFailed(e) => r == Step::<DropTable, ()>::Done(
                    Err(Error::TableDataWriteFailed { source: e }),
                ),
                _ => r == Step::<DropTable, ()>::Done(Ok(())),
            },
        }
    }

    /// Whether the operation can take `reply` in its present step.
    pub fn accepts(&self, reply: &Reply) -> (r: bool)
        ensures
            r == self.takes(*reply),
    {
        match self {
            DropTable::ReadingCatalog { .. } => matches!(
                reply,
                Reply::CatalogLoaded(_) | Reply::IoFailed(_) | Reply::ParseFailed(_)
            ),
            DropTable::WritingCatalog { .. } => matches!(
                reply,
                Reply::Completed | Reply::IoFailed(_) | Reply::SerializeFailed(_)
            ),
            DropTable::RemovingSchema { .. } | DropTable::RemovingData => matches!(
                reply,
                Reply::Completed | Reply::IoFailed(_)
            ),
        }
    }

    /// Takes the answer to the present request and goes on.
    pub fn resume(self, reply: Reply) -> (r: Step<DropTable, ()>)
        requires
            self.takes(reply),
        ensures
            self.steps_to(reply, r),
    {
        match self {
            DropTable::ReadingCatalog { storage, name } => match read_catalog(reply) {
                Err(e) => Step::Done(Err(e)),
                Ok(mut catalog) => match catalog.remove_table(&name) {
                    Err(e) => Step::Done(Err(e)),
                    Ok(id) => {
                        let path = storage.catalog_path();
                        Step::Next(
                            DropTable::WritingCatalog { storage, id },
                            Request::WriteCatalog(path, catalog),
                        )
                    },
                },
            },
            DropTable::WritingCatalog { storage, id } => match written(reply) {
                Err(e) => Step::Done(Err(e)),
                Ok(()) => {
                    let path = storage.table_schema_path(id);
                    Step::Next(DropTable::RemovingSchema { storage, id }, Request::RemoveFile(path))
                },
            },
            DropTable::RemovingSchema { storage, id } => match reply {
                Reply::IoFailed(e) => Step::Done(Err(Error::CatalogWriteFailed { source: e })),
                _ => Step::Next(DropTable::RemovingData, Request::RemoveFile(storage.table_data_path(id))),
            },
            DropTable::RemovingData => match reply {
                Reply::IoFailed(e) => Step::Done(Err(Error::TableDataWriteFailed { source: e })),
                _ => Step::Done(Ok(())),
            },
        }
    }
}

/// Opening a table, by the step it waits for.
pub enum OpenTable {
    /// Waits for the catalog, to find the table's id.
    ReadingCatalog { storage: Storage, name: TableName },
    /// Waits for the table's schema.
    ReadingSchema { storage: Storage, name: TableName, id: TableId },
    /// Waits to learn whether the table's data file exists.
    CheckingData { name: TableName, id: TableId, schema: TableSchema },
}

impl OpenTable {
    /// The replies that the operation can take in its present step.
    pub open spec fn takes(self, reply: Reply) -> bool {
        match self {
            OpenTable::ReadingCatalog { .. } => reply.answers_read_catalog(),
            OpenTable::ReadingSchema { .. } => reply.answers_read_schema(),
            OpenTable::CheckingData { .. } => reply.answers_check(),
        }
    }

    /// How the operation goes on from its present step on `reply`: the
    /// table's id is looked up in the catalog read, its schema is read, and
    /// the table is opened if its data file exists.
    pub open spec fn steps_to(self, reply: Reply, r: Step<OpenTable, Table>) -> bool {
        match self {
            OpenTable::ReadingCatalog { storage, name } => match read_catalog_result(reply) {
                Err(e) => r == Step::<OpenTable, Table>::Done(Err(e)),
                Ok(c) => match c@.table_id(name.0@) {
                    None => r == Step::<OpenTable, Table>::Done(Err(Error::TableNotFound)),
                    Some(id) => r matches Step::Next(
                        OpenTable::ReadingSchema { storage: s, name: n, id: i },
                        Request::ReadTableSchema(path),
                    ) && s == storage && n == name && i.0 == id && path@ == storage.schema_file(id),
                },
            },
            OpenTable::ReadingSchema { storage, name, id } => match read_table_schema_result(reply) {
                Err(e) => r == Step::<OpenTable, Table>::Done(Err(e)),
                Ok(schema) => r matches Step::Next(
                    OpenTable::CheckingData { name: n, id: i, schema: sc },
                    Request::CheckExists(path),
                ) && n == name && i == id && sc == schema && path@ == storage.data_file(id.0),
            },
            OpenTable::CheckingData { name, id, schema } => match reply {
                Reply::Exists(true) => r == Step::<OpenTable, Table>::Done(
                    Ok(Table { id, name, schema }),
                ),
                _ => r == Step::<OpenTable, Table>::Done(Err(Error::TableDataNotFound)),
            },
        }
    }

    /// Whether the operation can take `reply` in its present step.
    pub fn accepts(&self, reply: &Reply) -> (r: bool)
        ensures
            r == self.takes(*reply),
    {
        match self {
            OpenTable::ReadingCatalog { .. } => matches!(
                reply,
                Reply::CatalogLoaded(_) | Reply::IoFailed(_) | Reply::ParseFailed(_)
            ),
            OpenTable::ReadingSchema { .. } => matches!(
                reply,
                Reply::SchemaLoaded(_) | Reply::IoFailed(_) | Reply::ParseFailed(_)
            ),
            OpenTable::CheckingData { .. } => matches!(reply, Reply::Exists(_)),
        }
    }

    /// Takes the answer to the present request and goes on.
    pub fn resume(self, reply: Reply) -> (r: Step<OpenTable, Table>)
        requires
            self.takes(reply),
        ensures
            self.steps_to(reply, r),
    {
        match self {
            OpenTable::ReadingCatalog { storage, name } => match read_catalog(reply) {
                Err(e) => Step::Done(Err(e)),
                Ok(catalog) => match catalog.get_table_id(&name) {
                    Err(e) => Step::Done(Err(e)),
                    Ok(id) => {
                        let path = storage.table_schema_path(id);
                        Step::Next(
                            OpenTable::ReadingSchema { storage, name, id },
                            Request::ReadTableSchema(path),
                        )
                    },
                },
            },
            OpenTable::ReadingSchema { storage, name, id } => match read_table_schema(reply) {
                Err(e) => Step::Done(Err(e)),
                Ok(schema) => {
                    let path = storage.table_data_path(id);
                    Step::Next(OpenTable::CheckingData { name, id, schema }, Request::CheckExists(path))
                },
            },
            OpenTable::CheckingData { name, id, schema } => match reply {
                Reply::Exists(true) => Step::Done(Ok(Table { id, name, schema })),
                _ => Step::Done(Err(Error::TableDataNotFound)),
            },
        }
    }
}

/// Describing a table: opening it, and keeping its schema.
pub struct DescribeTable(pub OpenTable);

impl DescribeTable {
    /// The replies that the operation can take in its present step.
    pub open spec fn takes(self, reply: Reply) -> bool {
        self.0.takes(reply)
    }

    /// How the operation goes on from its present step on `reply`: as opening
    /// the table does, with the schema of the table opened as the result.
    pub open spec fn steps_to(self, reply: Reply, r: Step<DescribeTable, TableSchema>) -> bool {
        match r {
            Step::Next(d, request) => self.0.steps_to(reply, Step::Next(d.0, request)),
            Step::Done(Ok(schema)) => exists|t: Table|
                #[trigger] self.0.steps_to(reply, Step::Done(Ok(t))) && t.schema == schema,
            Step::Done(Err(e)) => self.0.steps_to(reply, Step::Done(Err(e))),
        }
    }

    /// Whether the operation can take `reply` in its present step.
    pub fn accepts(&self, reply: &Reply) -> (r: bool)
        ensures
            r == self.takes(*reply),
    {
        self.0.accepts(reply)
    }

    /// Takes the answer to the present request and goes on.
    pub fn resume(self, reply: Reply) -> (r: Step<DescribeTable, TableSchema>)
        requires
            self.takes(reply),
        ensures
            self.steps_to(reply, r),
    {
        let ghost open = self.0;
        match self.0.resume(reply) {
            Step::Next(o, request) => Step::Next(DescribeTable(o), request),
            Step::Done(Ok(table)) => {
                assert(open.steps_to(reply, Step::Done(Ok(table))));
                Step::Done(Ok(table.schema))
            },
            Step::Done(Err(e)) => Step::Done(Err(e)),
        }
    }
}

impl Storage {
    /// Creates the catalog of a new database in this directory.
    pub fn create_catalog(&self) -> (r: Step<CreateCatalog, ()>)
        ensures
            r matches Step::Next(CreateCatalog::CheckingCatalog { storage }, Request::CheckExists(path))
                && storage == *self && path@ == self.catalog_file(),
    {
        Step::Next(
            CreateCatalog::CheckingCatalog { storage: self.duplicate() },
            Request::CheckExists(self.catalog_path()),
        )
    }

    /// The storage type and the catalog version of this database.
    pub fn get_meta_info(&self) -> (r: Step<GetMetaInfo, StorageMetaInfo>)
        ensures
            r matches Step::Next(_, Request::ReadCatalog(path)) && path@ == self.catalog_file(),
    {
        Step::Next(GetMetaInfo, Request::ReadCatalog(self.catalog_path()))
    }

    /// The names of the tables of this database, in ascending order.
    pub fn list_tables(&self) -> (r: Step<ListTables, Vec<TableName>>)
        ensures
            r matches Step::Next(_, Request::ReadCatalog(path)) && path@ == self.catalog_file(),
    {
        Step::Next(ListTables, Request::ReadCatalog(self.catalog_path()))
    }

    /// Creates the table `name` with the schema `schema`: refuses an invalid
    /// name, then a schema with errors, before it reads anything.
    pub fn create_table(&self, name: &TableName, schema: &TableSchema) -> (r: Step<CreateTable, ()>)
        ensures
            !valid_name(name.0@) ==> (r matches Step::Done(Err(Error::InvalidTableName { name: n }))
                && n == *name),
            valid_name(name.0@) && schema_errors(schema.columns@).len() > 0 ==> (r matches Step::Done(
                Err(Error::InvalidTableSchema { name: n, errors }),
            ) && n == *name && errors@ == schema_errors(schema.columns@)),
            valid_name(name.0@) && schema_errors(schema.columns@).len() == 0 ==> (r matches Step::Next(
                CreateTable::ReadingCatalog { storage, name: n, schema: s },
                Request::ReadCatalog(path),
            ) && storage == *self && n == *name && s.columns@ == schema.columns@ && path@
                == self.catalog_file()),
    {
        if !is_valid_name(&name.0) {
            return Step::Done(Err(Error::InvalidTableName { name: name.duplicate() }));
        }
        let schema_errors = schema.validate();
        if schema_errors.len() > 0 {
            return Step::Done(
                Err(Error::InvalidTableSchema { name: name.duplicate(), errors: schema_errors }),
            );
        }
        Step::Next(
            CreateTable::ReadingCatalog {
                storage: self.duplicate(),
                name: name.duplicate(),
                schema: schema.duplicate(),
            },
            Request::ReadCatalog(self.catalog_path()),
        )
    }

    /// Drops the table `name`.
    pub fn drop_table(&self, name: &TableName) -> (r: Step<DropTable, ()>)
        ensures
            r matches Step::Next(DropTable::ReadingCatalog { storage, name: n }, Request::ReadCatalog(path))
                && storage == *self && n == *name && path@ == self.catalog_file(),
    {
        Step::Next(
            DropTable::ReadingCatalog { storage: self.duplicate(), name: name.duplicate() },
            Request::ReadCatalog(self.catalog_path()),
        )
    }

    /// Opens the table `name`.
    pub fn open_table(&self, name: &TableName) -> (r: Step<OpenTable, Table>)
        ensures
            r matches Step::Next(OpenTable::ReadingCatalog { storage, name: n }, Request::ReadCatalog(path))
                && storage == *self && n == *name && path@ == self.catalog_file(),
    {
        Step::Next(
            OpenTable::ReadingCatalog { storage: self.duplicate(), name: name.duplicate() },
            Request::ReadCatalog(self.catalog_path()),
        )
    }

    /// The schema of the table `name`.
    pub fn describe_table(&self, name: &TableName) -> (r: Step<DescribeTable, TableSchema>)
        ensures
            r matches Step::Next(
                DescribeTable(OpenTable::ReadingCatalog { storage, name: n }),
                Request::ReadCatalog(path),
            ) && storage == *self && n == *name && path@ == self.catalog_file(),
    {
        Step::Next(
            DescribeTable(OpenTable::ReadingCatalog { storage: self.duplicate(), name: name.duplicate() }),
            Request::ReadCatalog(self.catalog_path()),
        )
    }
}

} // verus!
