//! The storage and catalog operations, run against a file system held in memory.
use std::collections::BTreeMap;
use std::io;

use komora::catalog::catalog::{create_in_dir, read_catalog_metadata, CreateInDir};
use komora::catalog::metadata::{
    CatalogMetadata, ReadMetadata, WriteMetadata, CATALOG_METADATA_FILE_NAME,
    CATALOG_METADATA_LATEST_VERSION,
};
use komora::catalog::{
    Catalog, ColumnSchema, ColumnType, DbEngine, Table, TableId, TableMap, TableName,
    TableSchema, TableSchemaError, CATALOG_LATEST_VERSION,
};
use komora::driver::{Reply, Request, Step};
use komora::error::Error;
use komora::storage::{
    read_catalog, CreateCatalog, CreateTable, DescribeTable, DropTable, GetMetaInfo, ListTables,
    OpenTable, Storage, StorageMetaInfo, CATALOG_FILE_NAME,
};
use komora::text::join_path;

/// What a file of the memory file system holds.
enum Node {
    Dir,
    Catalog(Catalog),
    Schema(TableSchema),
    Metadata(CatalogMetadata),
    Data,
    Garbage,
}

fn copy_catalog(c: &Catalog) -> Catalog {
    let mut tables = TableMap::new();
    for (name, id) in c.tables.entries() {
        tables.insert(name.clone(), *id);
    }
    Catalog {
        engine: c.engine,
        storage_type: c.storage_type,
        version: c.version,
        next_table_id: c.next_table_id,
        tables,
    }
}

fn not_found(path: &str) -> io::Error {
    io::Error::new(io::ErrorKind::NotFound, path.to_string())
}

/// A file system in memory, that carries out the requests of the library.
struct MemoryFs {
    nodes: BTreeMap<String, Node>,
}

impl MemoryFs {
    fn new() -> MemoryFs {
        MemoryFs { nodes: BTreeMap::new() }
    }

    fn has_file(&self, path: &str) -> bool {
        self.nodes.contains_key(path)
    }

    fn remove(&mut self, path: &str) {
        self.nodes.remove(path).unwrap();
    }

    fn put(&mut self, path: &str, node: Node) {
        self.nodes.insert(path.to_string(), node);
    }

    fn perform(&mut self, request: Request) -> Reply {
        match request {
            Request::CheckExists(path) => Reply::Exists(self.has_file(&path)),
            Request::CreateDirs(dirs) => {
                for dir in dirs {
                    self.nodes.insert(dir, Node::Dir);
                }
                Reply::Completed
            }
            Request::ReadCatalog(path) => match self.nodes.get(&path) {
                Some(Node::Catalog(c)) => Reply::CatalogLoaded(copy_catalog(c)),
                Some(_) => Reply::ParseFailed(String::from("not a catalog")),
                None => Reply::IoFailed(not_found(&path)),
            },
            Request::WriteCatalog(path, catalog) => {
                self.nodes.insert(path, Node::Catalog(catalog));
                Reply::Completed
            }
            Request::ReadTableSchema(path) => match self.nodes.get(&path) {
                Some(Node::Schema(s)) => Reply::SchemaLoaded(s.clone()),
                Some(_) => Reply::ParseFailed(String::from("not a table schema")),
                None => Reply::IoFailed(not_found(&path)),
            },
            Request::WriteTableSchema(path, schema) => {
                self.nodes.insert(path, Node::Schema(schema));
                Reply::Completed
            }
            Request::CreateFile(path) => {
                self.nodes.insert(path, Node::Data);
                Reply::Completed
            }
            Request::RemoveFile(path) => match self.nodes.remove(&path) {
                Some(_) => Reply::Completed,
                None => Reply::IoFailed(not_found(&path)),
            },
            Request::ReadMetadata(path) => match self.nodes.get(&path) {
                Some(Node::Metadata(m)) => Reply::MetadataLoaded(*m),
                Some(_) => Reply::ParseFailed(String::from("not catalog metadata")),
                None => Reply::IoFailed(not_found(&path)),
            },
            Request::WriteMetadata(path, metadata) => {
                self.nodes.insert(path, Node::Metadata(metadata));
                Reply::Completed
            }
        }
    }
}

/// An operation of the library, as the memory file system drives it.
trait Operation: Sized {
    type Output;
    fn accepts(&self, reply: &Reply) -> bool;
    fn resume(self, reply: Reply) -> Step<Self, Self::Output>;
}

impl Operation for CreateCatalog {
    type Output = ();
    fn accepts(&self, reply: &Reply) -> bool {
        CreateCatalog::accepts(self, reply)
    }
    fn resume(self, reply: Reply) -> Step<Self, Self::Output> {
        CreateCatalog::resume(self, reply)
    }
}

impl Operation for GetMetaInfo {
    type Output = StorageMetaInfo;
    fn accepts(&self, reply: &Reply) -> bool {
        GetMetaInfo::accepts(self, reply)
    }
    fn resume(self, reply: Reply) -> Step<Self, Self::Output> {
        GetMetaInfo::resume(self, reply)
    }
}

impl Operation for ListTables {
    type Output = Vec<TableName>;
    fn accepts(&self, reply: &Reply) -> bool {
        ListTables::accepts(self, reply)
    }
    fn resume(self, reply: Reply) -> Step<Self, Self::Output> {
        ListTables::resume(self, reply)
    }
}

impl Operation for CreateTable {
    type Output = ();
    fn accepts(&self, reply: &Reply) -> bool {
        CreateTable::accepts(self, reply)
    }
    fn resume(self, reply: Reply) -> Step<Self, Self::Output> {
        CreateTable::resume(self, reply)
    }
}

impl Operation for DropTable {
    type Output = ();
    fn accepts(&self, reply: &Reply) -> bool {
        DropTable::accepts(self, reply)
    }
    fn resume(self, reply: Reply) -> Step<Self, Self::Output> {
        DropTable::resume(self, reply)
    }
}

impl Operation for OpenTable {
    type Output = Table;
    fn accepts(&self, reply: &Reply) -> bool {
        OpenTable::accepts(self, reply)
    }
    fn resume(self, reply: Reply) -> Step<Self, Self::Output> {
        OpenTable::resume(self, reply)
    }
}

impl Operation for DescribeTable {
    type Output = TableSchema;
    fn accepts(&self, reply: &Reply) -> bool {
        DescribeTable::accepts(self, reply)
    }
    fn resume(self, reply: Reply) -> Step<Self, Self::Output> {
        DescribeTable::resume(self, reply)
    }
}

impl Operation for CreateInDir {
    type Output = ();
    fn accepts(&self, reply: &Reply) -> bool {
        CreateInDir::accepts(self, reply)
    }
    fn resume(self, reply: Reply) -> Step<Self, Self::Output> {
        CreateInDir::resume(self, reply)
    }
}

impl Operation for ReadMetadata {
    type Output = CatalogMetadata;
    fn accepts(&self, reply: &Reply) -> bool {
        ReadMetadata::accepts(self, reply)
    }
    fn resume(self, reply: Reply) -> Step<Self, Self::Output> {
        ReadMetadata::resume(self, reply)
    }
}

impl Operation for WriteMetadata {
    type Output = ();
    fn accepts(&self, reply: &Reply) -> bool {
        WriteMetadata::accepts(self, reply)
    }
    fn resume(self, reply: Reply) -> Step<Self, Self::Output> {
        WriteMetadata::resume(self, reply)
    }
}

fn run<O: Operation>(fs: &mut MemoryFs, mut step: Step<O, O::Output>) -> Result<O::Output, Error> {
    loop {
        match step {
            Step::Done(result) => return result,
            Step::Next(op, request) => {
                let reply = fs.perform(request);
                assert!(op.accepts(&reply));
                step = op.resume(reply);
            }
        }
    }
}

fn fixture_path(name: &str) -> String {
    join_path("tests/fixtures/catalog", name)
}

fn table1_schema() -> TableSchema {
    TableSchema { columns: vec![ColumnSchema::new("column1", ColumnType::Int, false)] }
}

fn table2_schema() -> TableSchema {
    TableSchema {
        columns: vec![
            ColumnSchema::new("column1", ColumnType::Int, false),
            ColumnSchema::new("column2", ColumnType::Text, true),
        ],
    }
}

/// The file system with the catalog fixture `name` in it.
fn fixture(name: &str) -> MemoryFs {
    let mut fs = MemoryFs::new();
    let storage = Storage::new(&fixture_path(name));
    let catalog_path = storage.catalog_path();
    let metadata_path = join_path(&fixture_path(name), CATALOG_METADATA_FILE_NAME);
    match name {
        "incompatible_version" => {
            let mut catalog = Catalog::new();
            catalog.version = CATALOG_LATEST_VERSION + 1;
            fs.put(&catalog_path, Node::Catalog(catalog));
            let mut metadata = CatalogMetadata::new();
            metadata.version = CATALOG_METADATA_LATEST_VERSION + 1;
            fs.put(&metadata_path, Node::Metadata(metadata));
        }
        "invalid_metadata" => {
            fs.put(&catalog_path, Node::Garbage);
            fs.put(&metadata_path, Node::Garbage);
        }
        "one_empty_table" => {
            let mut catalog = Catalog::new();
            let id = catalog.add_table(TableName::from("table2")).unwrap();
            fs.put(&catalog_path, Node::Catalog(catalog));
            fs.put(&storage.table_schema_path(id), Node::Schema(table2_schema()));
            fs.put(&storage.table_data_path(id), Node::Data);
        }
        "corrupted_table_metadata" => {
            let mut catalog = Catalog::new();
            let id = catalog.add_table(TableName::from("table1")).unwrap();
            fs.put(&catalog_path, Node::Catalog(catalog));
            fs.put(&storage.table_schema_path(id), Node::Garbage);
            fs.put(&storage.table_data_path(id), Node::Data);
        }
        _ => unreachable!(),
    }
    fs
}

const DIR: &str = "/var/tmp/komora/test_db";

#[test]
fn catalog_dir_creation() {
    let mut fs = MemoryFs::new();

    run(&mut fs, create_in_dir(DIR)).unwrap();
}

#[test]
fn not_allowed_to_create_catalog_dir_twice() {
    let mut fs = MemoryFs::new();

    run(&mut fs, create_in_dir(DIR)).unwrap();

    assert!(matches!(run(&mut fs, create_in_dir(DIR)).unwrap_err(), Error::CatalogExists { .. }));
}

#[test]
fn catalog_metadata_reading_success() {
    let mut fs = MemoryFs::new();

    run(&mut fs, create_in_dir(DIR)).unwrap();

    let metadata = run(&mut fs, read_catalog_metadata(DIR)).unwrap();
    assert_eq!(metadata.version, CATALOG_METADATA_LATEST_VERSION);
    assert_eq!(metadata.engine, komora::catalog::metadata::DbEngine::Komora);
}

#[test]
fn catalog_metadata_reading_failure() {
    let mut fs = MemoryFs::new();

    run(&mut fs, create_in_dir(DIR)).unwrap();
    fs.remove(&join_path(DIR, CATALOG_METADATA_FILE_NAME));

    assert!(matches!(
        run(&mut fs, read_catalog_metadata(DIR)).unwrap_err(),
        Error::CatalogMetadataReadFailed { .. }
    ));
}

#[test]
fn catalog_metadata_reading_failure_due_to_incompatible_version() {
    let dir = fixture_path("incompatible_version");
    let mut fs = fixture("incompatible_version");

    assert!(matches!(
        run(&mut fs, read_catalog_metadata(&dir)).unwrap_err(),
        Error::IncompatibleCatalogMetadataVersion { .. }
    ));
}

#[test]
fn catalog_metadata_deserialization_failure() {
    let dir = fixture_path("invalid_metadata");
    let mut fs = fixture("invalid_metadata");

    assert!(matches!(
        run(&mut fs, read_catalog_metadata(&dir)).unwrap_err(),
        Error::CatalogMetadataDeserializationFailed { .. }
    ));
}

#[test]
fn catalog_creation() {
    let mut fs = MemoryFs::new();

    run(&mut fs, Storage::new(DIR).create_catalog()).unwrap();
}

#[test]
fn not_allowed_to_create_catalog_twice() {
    let mut fs = MemoryFs::new();
    let storage = Storage::new(DIR);

    run(&mut fs, storage.create_catalog()).unwrap();

    assert!(matches!(
        run(&mut fs, storage.create_catalog()).unwrap_err(),
        Error::CatalogAlreadyExists { .. }
    ));
}

#[test]
fn catalog_reading_success() {
    let mut fs = MemoryFs::new();
    let storage = Storage::new(DIR);
    run(&mut fs, storage.create_catalog()).unwrap();

    let metadata = read_catalog(fs.perform(Request::ReadCatalog(storage.catalog_path()))).unwrap();

    assert_eq!(metadata.version, CATALOG_LATEST_VERSION);
    assert_eq!(metadata.engine, DbEngine::Komora);
}

#[test]
fn catalog_reading_failure() {
    let mut fs = MemoryFs::new();
    let storage = Storage::new(DIR);
    run(&mut fs, storage.create_catalog()).unwrap();

    fs.remove(&join_path(DIR, CATALOG_FILE_NAME));

    assert!(matches!(
        read_catalog(fs.perform(Request::ReadCatalog(storage.catalog_path()))).unwrap_err(),
        Error::CatalogReadFailed { .. }
    ));
}

#[test]
fn catalog_reading_failure_due_to_incompatible_version() {
    let storage = Storage::new(&fixture_path("incompatible_version"));
    let mut fs = fixture("incompatible_version");

    assert!(matches!(
        read_catalog(fs.perform(Request::ReadCatalog(storage.catalog_path()))).unwrap_err(),
        Error::IncompatibleCatalogVersion { .. }
    ));
}

#[test]
fn catalog_deserialization_failure() {
    let storage = Storage::new(&fixture_path("invalid_metadata"));
    let mut fs = fixture("invalid_metadata");

    assert!(matches!(
        read_catalog(fs.perform(Request::ReadCatalog(storage.catalog_path()))).unwrap_err(),
        Error::CatalogDeserializationFailed { .. }
    ));
}

#[test]
fn table_creation_success() {
    let mut fs = MemoryFs::new();
    let storage = Storage::new(DIR);
    run(&mut fs, storage.create_catalog()).unwrap();
    let table1_name = TableName::from("table1");
    let table1_schema = table1_schema();

    assert!(run(&mut fs, storage.list_tables()).unwrap().is_empty());

    run(&mut fs, storage.create_table(&table1_name, &table1_schema)).unwrap();

    assert!(run(&mut fs, storage.list_tables()).unwrap().contains(&table1_name));

    let table1 = run(&mut fs, storage.open_table(&table1_name)).unwrap();
    assert_eq!(table1_name, table1.name);
    assert!(fs.has_file(&storage.table_schema_path(table1.id)));
    assert!(fs.has_file(&storage.table_data_path(table1.id)));
}

#[test]
fn table_creation_with_duplicate_name() {
    let mut fs = MemoryFs::new();
    let storage = Storage::new(DIR);
    run(&mut fs, storage.create_catalog()).unwrap();
    let table1_name = TableName::from("table1");
    let table1_schema = table1_schema();
    run(&mut fs, storage.create_table(&table1_name, &table1_schema)).unwrap();

    match run(&mut fs, storage.create_table(&table1_name, &table1_schema)).unwrap_err() {
        Error::TableAlreadyExists { name } => assert_eq!(name, table1_name),
        other => panic!("unexpected error {:?}", other),
    }
}

#[test]
fn table_creation_without_columns() {
    let mut fs = MemoryFs::new();
    let storage = Storage::new(DIR);
    run(&mut fs, storage.create_catalog()).unwrap();

    let table_name = TableName::from("table1");
    let table_schema = TableSchema { columns: vec![] };

    let (name, errors) = match run(&mut fs, storage.create_table(&table_name, &table_schema)).unwrap_err() {
        Error::InvalidTableSchema { name, errors } => (name, errors),
        other => panic!("unexpected error {:?}", other),
    };
    assert_eq!(table_name, name);
    assert_eq!(vec![TableSchemaError::MissingColumns], errors);
}

#[test]
fn table_creation_with_invalid_name() {
    let mut fs = MemoryFs::new();
    let storage = Storage::new(DIR);
    run(&mut fs, storage.create_catalog()).unwrap();
    let table_schema = table2_schema();

    let empty_name = TableName::from("");
    match run(&mut fs, storage.create_table(&empty_name, &table_schema)).unwrap_err() {
        Error::InvalidTableName { name } => assert_eq!(name, empty_name),
        other => panic!("unexpected error {:?}", other),
    }

    let non_ascii_name = TableName::from("таблиця");
    match run(&mut fs, storage.create_table(&non_ascii_name, &table_schema)).unwrap_err() {
        Error::InvalidTableName { name } => assert_eq!(name, non_ascii_name),
        other => panic!("unexpected error {:?}", other),
    }
}

#[test]
fn table_creation_with_invalid_column_name() {
    let mut fs = MemoryFs::new();
    let storage = Storage::new(DIR);
    run(&mut fs, storage.create_catalog()).unwrap();
    let table_name = TableName::from("table1");

    let table_schema =
        TableSchema { columns: vec![ColumnSchema::new("", ColumnType::Int, false)] };

    let (name, errors) = match run(&mut fs, storage.create_table(&table_name, &table_schema)).unwrap_err() {
        Error::InvalidTableSchema { name, errors } => (name, errors),
        other => panic!("unexpected error {:?}", other),
    };

    assert_eq!(TableName::from("table1"), name);
    assert_eq!(vec![TableSchemaError::InvalidColumnName { name: String::from("") }], errors);

    let table_schema = TableSchema {
        columns: vec![ColumnSchema::new("колонка", ColumnType::Int, false)],
    };

    let (name, errors) = match run(&mut fs, storage.create_table(&table_name, &table_schema)).unwrap_err() {
        Error::InvalidTableSchema { name, errors } => (name, errors),
        other => panic!("unexpected error {:?}", other),
    };

    assert_eq!(TableName::from("table1"), name);
    assert_eq!(
        vec![TableSchemaError::InvalidColumnName { name: String::from("колонка") }],
        errors
    );
}

#[test]
fn table_creation_with_duplicate_column_name() {
    let mut fs = MemoryFs::new();
    let storage = Storage::new(DIR);
    run(&mut fs, storage.create_catalog()).unwrap();
    let table_name = TableName::from("table1");

    let table_schema = TableSchema {
        columns: vec![
            ColumnSchema::new("column1", ColumnType::Int, false),
            ColumnSchema::new("column2", ColumnType::Text, false),
            ColumnSchema::new("column1", ColumnType::Text, false),
        ],
    };

    let (name, errors) = match run(&mut fs, storage.create_table(&table_name, &table_schema)).unwrap_err() {
        Error::InvalidTableSchema { name, errors } => (name, errors),
        other => panic!("unexpected error {:?}", other),
    };

    assert_eq!(TableName::from("table1"), name);
    assert_eq!(
        vec![TableSchemaError::DuplicateColumn { name: String::from("column1") }],
        errors
    );
}

#[test]
fn drop_table_success() {
    let mut fs = MemoryFs::new();
    let storage = Storage::new(DIR);
    run(&mut fs, storage.create_catalog()).unwrap();
    let table1_name = TableName::from("table1");
    let table1_schema = table1_schema();

    run(&mut fs, storage.create_table(&table1_name, &table1_schema)).unwrap();
    assert!(run(&mut fs, storage.list_tables()).unwrap().contains(&table1_name));
    let table_id = run(&mut fs, storage.open_table(&table1_name)).unwrap().id;

    run(&mut fs, storage.drop_table(&table1_name)).unwrap();

    assert!(run(&mut fs, storage.list_tables()).unwrap().is_empty());
    assert!(!fs.has_file(&storage.table_schema_path(table_id)));
    assert!(!fs.has_file(&storage.table_data_path(table_id)));
}

#[test]
fn drop_non_existing_table() {
    let mut fs = MemoryFs::new();
    let storage = Storage::new(DIR);
    run(&mut fs, storage.create_catalog()).unwrap();

    assert!(matches!(
        run(&mut fs, storage.drop_table(&TableName::from("table1"))).unwrap_err(),
        Error::TableNotFound
    ));
}

#[test]
fn open_table_success() {
    let storage = Storage::new(&fixture_path("one_empty_table"));
    let mut fs = fixture("one_empty_table");
    let expected_table_name = TableName::from("table2");
    let expected_schema = table2_schema();

    let table = run(&mut fs, storage.open_table(&expected_table_name)).unwrap();
    assert_eq!(TableId(1), table.id);
    assert_eq!(expected_table_name, table.name);
    assert_eq!(expected_schema, table.schema);
}

#[test]
fn open_non_existent_table() {
    let storage = Storage::new(&fixture_path("one_empty_table"));
    let mut fs = fixture("one_empty_table");

    assert!(matches!(
        run(&mut fs, storage.open_table(&TableName::from("table123"))).unwrap_err(),
        Error::TableNotFound
    ));
}

#[test]
fn open_table_with_corrupted_metadata() {
    let storage = Storage::new(&fixture_path("corrupted_table_metadata"));
    let mut fs = fixture("corrupted_table_metadata");

    assert!(matches!(
        run(&mut fs, storage.open_table(&TableName::from("table1"))).unwrap_err(),
        Error::CatalogDeserializationFailed { .. }
    ));
}

#[test]
fn describe_table_success() {
    let storage = Storage::new(&fixture_path("one_empty_table"));
    let mut fs = fixture("one_empty_table");
    let expected_table_name = TableName::from("table2");
    let expected_schema = table2_schema();

    assert_eq!(expected_schema, run(&mut fs, storage.describe_table(&expected_table_name)).unwrap());
}

#[test]
fn describe_non_existent_table() {
    let storage = Storage::new(&fixture_path("one_empty_table"));
    let mut fs = fixture("one_empty_table");

    assert!(matches!(
        run(&mut fs, storage.describe_table(&TableName::from("table123"))).unwrap_err(),
        Error::TableNotFound
    ));
}

#[test]
fn describe_table_with_corrupted_metadata() {
    let storage = Storage::new(&fixture_path("corrupted_table_metadata"));
    let mut fs = fixture("corrupted_table_metadata");

    assert!(matches!(
        run(&mut fs, storage.describe_table(&TableName::from("table1"))).unwrap_err(),
        Error::CatalogDeserializationFailed { .. }
    ));
}

#[test]
fn list_tables() {
    let mut fs = MemoryFs::new();
    let storage = Storage::new(DIR);
    run(&mut fs, storage.create_catalog()).unwrap();

    assert!(run(&mut fs, storage.list_tables()).unwrap().is_empty());

    let table1_name = TableName::from("table1");
    let table1_schema = table1_schema();

    let table2_name = TableName::from("table2");
    let table2_schema = table2_schema();

    run(&mut fs, storage.create_table(&table1_name, &table1_schema)).unwrap();
    run(&mut fs, storage.create_table(&table2_name, &table2_schema)).unwrap();

    assert_eq!(vec![table1_name, table2_name], run(&mut fs, storage.list_tables()).unwrap());
}

#[test]
fn new_database_reports_latest_version_and_no_tables() {
    let mut fs = MemoryFs::new();
    let storage = Storage::new(DIR);
    run(&mut fs, storage.create_catalog()).unwrap();

    let info = run(&mut fs, storage.get_meta_info()).unwrap();
    assert_eq!(info.catalog_version, CATALOG_LATEST_VERSION);
    assert_eq!(info.storage_type, komora::catalog::StorageType::RowOriented);
    assert!(run(&mut fs, storage.list_tables()).unwrap().is_empty());
    assert!(fs.has_file(&storage.tables_dir()));
}

#[test]
fn dropped_table_is_not_found_and_can_be_created_again() {
    let mut fs = MemoryFs::new();
    let storage = Storage::new(DIR);
    run(&mut fs, storage.create_catalog()).unwrap();
    let name = TableName::from("t");
    run(&mut fs, storage.create_table(&name, &table1_schema())).unwrap();
    run(&mut fs, storage.drop_table(&name)).unwrap();
    assert!(matches!(run(&mut fs, storage.open_table(&name)).unwrap_err(), Error::TableNotFound));
    run(&mut fs, storage.create_table(&name, &table2_schema())).unwrap();
    let table = run(&mut fs, storage.open_table(&name)).unwrap();
    assert_eq!(table.id, TableId(2));
    assert_eq!(table.schema, table2_schema());
}
