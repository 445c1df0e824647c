//! What holds of the storage across its operations, where the file system
//! gives back what was written to it.
use vstd::prelude::*;

use crate::catalog::table_map::names_of;
use crate::catalog::{StorageType, TableName, TableSchema, CATALOG_LATEST_VERSION};
use crate::driver::{Reply, Request, Step};
use crate::error::Error;
use crate::text::{decimal, law_decimal_with_suffix_injective, law_path_join_injective};
use crate::storage::{DATA_FILE_SUFFIX, SCHEMA_FILE_SUFFIX};
use crate::storage::{
    CreateCatalog, CreateTable, DropTable, GetMetaInfo, ListTables, OpenTable, Storage,
    StorageMetaInfo,
};

verus! {

/// A table that `create_table` made can be opened. Run `create_table` on a
/// catalog that lacks the name, with every write succeeding; then run
/// `open_table` on the catalog that was written and the schema that was
/// written. `open_table` reads the schema where it was written, looks for
/// the data file where it was created, and opens the table under the id it
/// was given, with the schema it was created with.
pub proof fn law_open_after_create(
    storage: Storage,
    name: TableName,
    schema: TableSchema,
    loaded: crate::catalog::Catalog,
    created1: Step<CreateTable, ()>,
    created2: Step<CreateTable, ()>,
    created3: Step<CreateTable, ()>,
    read_back: crate::catalog::Catalog,
    schema_back: TableSchema,
    opened1: Step<OpenTable, crate::catalog::Table>,
    opened2: Step<OpenTable, crate::catalog::Table>,
    opened3: Step<OpenTable, crate::catalog::Table>,
)
    requires
        loaded.version <= CATALOG_LATEST_VERSION,
        !loaded@.tables.contains_key(name.0@),
        (CreateTable::ReadingCatalog { storage, name, schema }).steps_to(
            Reply::CatalogLoaded(loaded),
            created1,
        ),
        created1 matches Step::Next(op, Request::WriteTableSchema(_, written_schema))
            && op.steps_to(Reply::Completed, created2) && schema_back == written_schema,
        created2 matches Step::Next(op, _) && op.steps_to(Reply::Completed, created3),
        created3 matches Step::Next(_, Request::WriteCatalog(_, written)) && read_back@ == written@,
        (OpenTable::ReadingCatalog { storage, name }).steps_to(
            Reply::CatalogLoaded(read_back),
            opened1,
        ),
        opened1 matches Step::Next(op, _) && op.steps_to(Reply::SchemaLoaded(schema_back), opened2),
        opened2 matches Step::Next(op, _) && op.steps_to(Reply::Exists(true), opened3),
    ensures
        created1 matches Step::Next(_, Request::WriteTableSchema(written_at, _)) && opened1 matches Step::Next(
            _,
            Request::ReadTableSchema(read_at),
        ) && read_at@ == written_at@,
        created2 matches Step::Next(_, Request::CreateFile(created_at)) && opened2 matches Step::Next(
            _,
            Request::CheckExists(checked_at),
        ) && checked_at@ == created_at@,
        opened3 matches Step::Done(Ok(table)) && table.id == loaded.next_table_id && table.name
            == name && table.schema == schema,
{
}

/// A table that `drop_table` dropped is not found: run `drop_table` on a
/// catalog, with the catalog write succeeding, then `open_table` on the
/// catalog that was written; `open_table` ends with `TableNotFound`.
pub proof fn law_open_after_drop(
    storage: Storage,
    name: TableName,
    loaded: crate::catalog::Catalog,
    dropped1: Step<DropTable, ()>,
    read_back: crate::catalog::Catalog,
    opened1: Step<OpenTable, crate::catalog::Table>,
)
    requires
        loaded.version <= CATALOG_LATEST_VERSION,
        loaded@.tables.contains_key(name.0@),
        (DropTable::ReadingCatalog { storage, name }).steps_to(
            Reply::CatalogLoaded(loaded),
            dropped1,
        ),
        dropped1 matches Step::Next(_, Request::WriteCatalog(_, written)) && read_back@ == written@,
        (OpenTable::ReadingCatalog { storage, name }).steps_to(
            Reply::CatalogLoaded(read_back),
            opened1,
        ),
    ensures
        opened1 == Step::<OpenTable, crate::catalog::Table>::Done(Err(Error::TableNotFound)),
{
}

/// A table that `create_table` made is listed: run `create_table` on a
/// catalog that lacks the name, then `list_tables` on the catalog that was
/// written; the listing holds the name, besides the names listed before.
pub proof fn law_list_after_create(
    storage: Storage,
    name: TableName,
    schema: TableSchema,
    loaded: crate::catalog::Catalog,
    created1: Step<CreateTable, ()>,
    created2: Step<CreateTable, ()>,
    created3: Step<CreateTable, ()>,
    read_back: crate::catalog::Catalog,
    listed: Step<ListTables, Vec<TableName>>,
)
    requires
        loaded.version <= CATALOG_LATEST_VERSION,
        !loaded@.tables.contains_key(name.0@),
        (CreateTable::ReadingCatalog { storage, name, schema }).steps_to(
            Reply::CatalogLoaded(loaded),
            created1,
        ),
        created1 matches Step::Next(op, _) && op.steps_to(Reply::Completed, created2),
        created2 matches Step::Next(op, _) && op.steps_to(Reply::Completed, created3),
        created3 matches Step::Next(_, Request::WriteCatalog(_, written)) && read_back@ == written@,
        ListTables.steps_to(Reply::CatalogLoaded(read_back), listed),
    ensures
        listed matches Step::Done(Ok(names)) && names_of(names@).contains(name.0@) && forall|
            k: Seq<char>,
        | loaded@.tables.contains_key(k) ==> names_of(names@).contains(k),
{
}

/// A table cannot be created twice: run `create_table` on a catalog that
/// lacks the name, then `create_table` again for the same name on the catalog
/// that was written; the second run ends with `TableAlreadyExists`.
pub proof fn law_create_twice_refused(
    storage: Storage,
    name: TableName,
    schema: TableSchema,
    again_schema: TableSchema,
    loaded: crate::catalog::Catalog,
    created1: Step<CreateTable, ()>,
    created2: Step<CreateTable, ()>,
    created3: Step<CreateTable, ()>,
    read_back: crate::catalog::Catalog,
    again: Step<CreateTable, ()>,
)
    requires
        loaded.version <= CATALOG_LATEST_VERSION,
        !loaded@.tables.contains_key(name.0@),
        (CreateTable::ReadingCatalog { storage, name, schema }).steps_to(
            Reply::CatalogLoaded(loaded),
            created1,
        ),
        created1 matches Step::Next(op, _) && op.steps_to(Reply::Completed, created2),
        created2 matches Step::Next(op, _) && op.steps_to(Reply::Completed, created3),
        created3 matches Step::Next(_, Request::WriteCatalog(_, written)) && read_back@ == written@,
        (CreateTable::ReadingCatalog { storage, name, schema: again_schema }).steps_to(
            Reply::CatalogLoaded(read_back),
            again,
        ),
    ensures
        again == Step::<CreateTable, ()>::Done(Err(Error::TableAlreadyExists { name })),
{
}

/// A new database has no tables and tells the latest catalog version: run
/// `create_catalog` where there is no catalog, with the directories created,
/// then `list_tables` and `get_meta_info` on the catalog that was written.
pub proof fn law_new_database_is_empty(
    storage: Storage,
    created1: Step<CreateCatalog, ()>,
    created2: Step<CreateCatalog, ()>,
    read_back: crate::catalog::Catalog,
    listed: Step<ListTables, Vec<TableName>>,
    info: Step<GetMetaInfo, StorageMetaInfo>,
)
    requires
        (CreateCatalog::CheckingCatalog { storage }).steps_to(Reply::Exists(false), created1),
        created1 matches Step::Next(op, _) && op.steps_to(Reply::Completed, created2),
        created2 matches Step::Next(_, Request::WriteCatalog(_, written)) && read_back@ == written@,
        ListTables.steps_to(Reply::CatalogLoaded(read_back), listed),
        GetMetaInfo.steps_to(Reply::CatalogLoaded(read_back), info),
    ensures
        listed matches Step::Done(Ok(names)) && names@.len() == 0,
        info matches Step::Done(Ok(meta)) && meta.storage_type == StorageType::RowOriented
            && meta.catalog_version == CATALOG_LATEST_VERSION,
{
    if let Step::Done(Ok(names)) = listed {
        if names@.len() > 0 {
            assert(names_of(names@).contains(names_of(names@)[0]));
        }
    }
}

/// Different tables keep their schemas and their data in different files.
pub proof fn law_table_files_distinct(storage: Storage, a: u16, b: u16)
    requires
        a != b,
    ensures
        storage.schema_file(a) != storage.schema_file(b),
        storage.data_file(a) != storage.data_file(b),
{
    law_path_join_injective(
        storage.tables_path(),
        decimal(a as nat) + SCHEMA_FILE_SUFFIX@,
        decimal(b as nat) + SCHEMA_FILE_SUFFIX@,
    );
    law_decimal_with_suffix_injective(a as nat, b as nat, SCHEMA_FILE_SUFFIX@);
    law_path_join_injective(
        storage.tables_path(),
        decimal(a as nat) + DATA_FILE_SUFFIX@,
        decimal(b as nat) + DATA_FILE_SUFFIX@,
    );
    law_decimal_with_suffix_injective(a as nat, b as nat, DATA_FILE_SUFFIX@);
}

/// Every operation that reads the catalog refuses one written by a newer
/// version with `IncompatibleCatalogVersion`, before anything else.
pub proof fn law_newer_catalog_refused(
    c: crate::catalog::Catalog,
    storage: Storage,
    name: TableName,
    schema: TableSchema,
    meta: Step<GetMetaInfo, StorageMetaInfo>,
    listed: Step<ListTables, Vec<TableName>>,
    created: Step<CreateTable, ()>,
    dropped: Step<DropTable, ()>,
    opened: Step<OpenTable, crate::catalog::Table>,
)
    requires
        c.version > CATALOG_LATEST_VERSION,
        GetMetaInfo.steps_to(Reply::CatalogLoaded(c), meta),
        ListTables.steps_to(Reply::CatalogLoaded(c), listed),
        (CreateTable::ReadingCatalog { storage, name, schema }).steps_to(
            Reply::CatalogLoaded(c),
            created,
        ),
        (DropTable::ReadingCatalog { storage, name }).steps_to(Reply::CatalogLoaded(c), dropped),
        (OpenTable::ReadingCatalog { storage, name }).steps_to(Reply::CatalogLoaded(c), opened),
    ensures
        meta == Step::<GetMetaInfo, StorageMetaInfo>::Done(Err(Error::IncompatibleCatalogVersion)),
        listed == Step::<ListTables, Vec<TableName>>::Done(Err(Error::IncompatibleCatalogVersion)),
        created == Step::<CreateTable, ()>::Done(Err(Error::IncompatibleCatalogVersion)),
        dropped == Step::<DropTable, ()>::Done(Err(Error::IncompatibleCatalogVersion)),
        opened == Step::<OpenTable, crate::catalog::Table>::Done(
            Err(Error::IncompatibleCatalogVersion),
        ),
{
}

/// `get_meta_info` on a catalog of the latest version or an older one tells
/// its storage type and its version.
pub proof fn law_meta_info_of_readable_catalog(
    c: crate::catalog::Catalog,
    meta: Step<GetMetaInfo, StorageMetaInfo>,
)
    requires
        c.version <= CATALOG_LATEST_VERSION,
        GetMetaInfo.steps_to(Reply::CatalogLoaded(c), meta),
    ensures
        meta matches Step::Done(Ok(info)) && info.storage_type == c.storage_type
            && info.catalog_version == c.version,
{
}

} // verus!
