//! The catalog, the table map, schema validation and the text helpers, on concrete values.
use komora::catalog::metadata::{CatalogMetadata, CATALOG_METADATA_LATEST_VERSION};
use komora::catalog::{
    is_valid_name, Catalog, ColumnSchema, ColumnType, DbEngine, StorageType, TableId, TableMap,
    TableName, TableSchema, TableSchemaError, CATALOG_LATEST_VERSION,
};
use komora::error::Error;
use komora::storage::Storage;
use komora::text::{decimal_string, join_path, name_precedes};

#[test]
fn new_catalog_is_empty_latest_and_starts_at_one() {
    let catalog = Catalog::new();
    assert_eq!(catalog.engine, DbEngine::Komora);
    assert_eq!(catalog.storage_type, StorageType::RowOriented);
    assert_eq!(catalog.version, CATALOG_LATEST_VERSION);
    assert_eq!(catalog.next_table_id, TableId(1));
    assert!(catalog.tables.keys().is_empty());
    let default = Catalog::default();
    assert_eq!(default.next_table_id, TableId(1));
    assert!(default.tables.keys().is_empty());
}

#[test]
fn added_tables_get_increasing_ids_and_are_found() {
    let mut catalog = Catalog::new();
    assert_eq!(catalog.add_table(TableName::from("b")).unwrap(), TableId(1));
    assert_eq!(catalog.add_table(TableName::from("a")).unwrap(), TableId(2));
    assert_eq!(catalog.next_table_id, TableId(3));
    assert_eq!(catalog.get_table_id(&TableName::from("b")).unwrap(), TableId(1));
    assert_eq!(catalog.get_table_id(&TableName::from("a")).unwrap(), TableId(2));
    assert!(matches!(catalog.get_table_id(&TableName::from("c")), Err(Error::TableNotFound)));
}

#[test]
fn adding_a_table_twice_is_refused_and_changes_nothing() {
    let mut catalog = Catalog::new();
    catalog.add_table(TableName::from("t")).unwrap();
    match catalog.add_table(TableName::from("t")) {
        Err(Error::TableAlreadyExists { name }) => assert_eq!(name, TableName::from("t")),
        other => panic!("unexpected {:?}", other),
    }
    assert_eq!(catalog.next_table_id, TableId(2));
    assert_eq!(catalog.tables.keys(), vec![TableName::from("t")]);
}

#[test]
fn removing_a_table_gives_its_id_and_forgets_it() {
    let mut catalog = Catalog::new();
    catalog.add_table(TableName::from("t")).unwrap();
    catalog.add_table(TableName::from("u")).unwrap();
    assert_eq!(catalog.remove_table(&TableName::from("t")).unwrap(), TableId(1));
    assert!(matches!(catalog.get_table_id(&TableName::from("t")), Err(Error::TableNotFound)));
    assert_eq!(catalog.get_table_id(&TableName::from("u")).unwrap(), TableId(2));
    assert!(matches!(catalog.remove_table(&TableName::from("t")), Err(Error::TableNotFound)));
    // The id of a dropped table is not handed out again.
    assert_eq!(catalog.add_table(TableName::from("t")).unwrap(), TableId(3));
}

#[test]
fn table_names_are_listed_in_string_order() {
    let mut catalog = Catalog::new();
    for name in ["table2", "Table", "table10", "tablé", "table1", ""] {
        catalog.add_table(TableName::from(name)).unwrap();
    }
    let mut expected: Vec<TableName> =
        ["table2", "Table", "table10", "tablé", "table1", ""].iter().map(|s| TableName::from(s)).collect();
    expected.sort();
    assert_eq!(catalog.tables.keys(), expected);
    let entries: Vec<(TableName, TableId)> = catalog.tables.entries().clone();
    assert_eq!(entries[0], (TableName::from(""), TableId(6)));
    assert_eq!(entries[5], (TableName::from("tablé"), TableId(4)));
}

#[test]
fn table_map_insert_replaces_and_remove_gives_back() {
    let mut map = TableMap::new();
    assert_eq!(map.insert(TableName::from("x"), TableId(7)), None);
    assert_eq!(map.insert(TableName::from("x"), TableId(8)), Some(TableId(7)));
    assert_eq!(map.get(&TableName::from("x")), Some(TableId(8)));
    assert!(map.contains_key(&TableName::from("x")));
    assert_eq!(map.remove(&TableName::from("x")), Some(TableId(8)));
    assert_eq!(map.remove(&TableName::from("x")), None);
    assert!(!map.contains_key(&TableName::from("x")));
}

#[test]
fn next_table_id_adds_one() {
    assert_eq!(TableId(41).next(), TableId(42));
    assert_eq!(TableId(u16::MAX - 1).next(), TableId(u16::MAX));
}

#[test]
fn valid_names_are_non_empty_ascii() {
    assert!(is_valid_name(&String::from("a b")));
    assert!(!is_valid_name(&String::from("")));
    assert!(!is_valid_name(&String::from("é")));
}

#[test]
fn validate_reports_every_problem_in_column_order() {
    let schema = TableSchema {
        columns: vec![
            ColumnSchema::new("a", ColumnType::Int, false),
            ColumnSchema::new("", ColumnType::Text, true),
            ColumnSchema::new("a", ColumnType::Text, false),
            ColumnSchema::new("", ColumnType::Int, false),
            ColumnSchema::new("ä", ColumnType::Int, false),
        ],
    };
    assert_eq!(
        schema.validate(),
        vec![
            TableSchemaError::InvalidColumnName { name: String::from("") },
            TableSchemaError::DuplicateColumn { name: String::from("a") },
            TableSchemaError::DuplicateColumn { name: String::from("") },
            TableSchemaError::InvalidColumnName { name: String::from("") },
            TableSchemaError::InvalidColumnName { name: String::from("ä") },
        ]
    );
}

#[test]
fn validate_accepts_a_valid_schema() {
    let schema = TableSchema {
        columns: vec![
            ColumnSchema::new("id", ColumnType::Int, false),
            ColumnSchema::new("name", ColumnType::Text, true),
        ],
    };
    assert!(schema.validate().is_empty());
    assert_eq!(TableSchema { columns: vec![] }.validate(), vec![TableSchemaError::MissingColumns]);
}

#[test]
fn schema_and_name_copies_are_equal() {
    let schema = TableSchema { columns: vec![ColumnSchema::new("c", ColumnType::Int, true)] };
    assert_eq!(schema.duplicate(), schema);
    assert_eq!(TableName::from("n").duplicate(), TableName::from("n"));
}

#[test]
fn new_metadata_is_latest() {
    let metadata = CatalogMetadata::new();
    assert_eq!(metadata.version, CATALOG_METADATA_LATEST_VERSION);
    assert_eq!(metadata.engine, komora::catalog::metadata::DbEngine::Komora);
}

#[test]
fn decimal_numbers() {
    assert_eq!(decimal_string(0), "0");
    assert_eq!(decimal_string(7), "7");
    assert_eq!(decimal_string(10), "10");
    assert_eq!(decimal_string(305), "305");
    assert_eq!(decimal_string(u16::MAX), "65535");
}

#[test]
fn joined_paths() {
    assert_eq!(join_path("db", "tables"), "db/tables");
    assert_eq!(join_path("db/", "tables"), "db/tables");
    assert_eq!(join_path("", "tables"), "tables");
    assert_eq!(join_path("/", "x"), "/x");
}

#[test]
fn name_order_is_string_order() {
    let names = ["", "a", "ab", "b", "B", "é", "z", "ba"];
    for x in names {
        for y in names {
            assert_eq!(name_precedes(x, y), String::from(x) < String::from(y), "{} {}", x, y);
        }
    }
}

#[test]
fn storage_paths() {
    let storage = Storage::new("/var/db");
    assert_eq!(storage.catalog_path(), "/var/db/catalog.toml");
    assert_eq!(storage.tables_dir(), "/var/db/tables");
    assert_eq!(storage.table_schema_path(TableId(12)), "/var/db/tables/12.schema.toml");
    assert_eq!(storage.table_data_path(TableId(3)), "/var/db/tables/3.data");
    let relative = Storage::new("db/");
    assert_eq!(relative.table_data_path(TableId(0)), "db/tables/0.data");
}
