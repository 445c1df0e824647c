//! The catalog: which tables the database holds, under which ids, and what
//! their schemas look like.
use vstd::prelude::*;
use vstd::string::*;
use vstd::utf8::is_ascii_chars;

use crate::error::Error;

pub mod catalog;
pub mod laws;
pub mod metadata;
pub mod table_map;

pub use table_map::TableMap;

verus! {

/// The engine that wrote a catalog.
#[derive(PartialEq, Eq, Structural, Debug, Clone, Copy)]
pub enum DbEngine {
    Komora,
}

/// How the rows of the tables are laid out.
#[derive(PartialEq, Eq, Structural, Debug, Clone, Copy)]
pub enum StorageType {
    RowOriented,
}

/// The newest catalog format; catalogs of higher versions are refused.
pub const CATALOG_LATEST_VERSION: u16 = 1;

/// The stable identifier of a table; unlike its name it never changes.
#[derive(PartialEq, Eq, Structural, Debug, Clone, Copy)]
pub struct TableId(pub u16);

impl TableId {
    /// The id that follows this one.
    #[must_use]
    pub fn next(self) -> (r: TableId)
        requires
            self.0 < u16::MAX,
        ensures
            r.0 == self.0 + 1,
    {
        TableId(self.0 + 1)
    }
}

/// The name of a table.
#[derive(PartialEq, Eq, PartialOrd, Ord, Debug, Clone, Hash)]
pub struct TableName(pub String);

impl TableName {
    /// The table name `s`.
    #[must_use]
    pub fn from(s: &str) -> (r: TableName)
        ensures
            r.0@ == s@,
    {
        TableName(String::from_str(s))
    }

    /// A copy of this name.
    pub fn duplicate(&self) -> (r: TableName)
        ensures
            r == *self,
    {
        TableName(self.0.clone())
    }
}

/// A name that a table or a column may have: not empty, and ASCII only.
pub open spec fn valid_name(s: Seq<char>) -> bool {
    s.len() > 0 && is_ascii_chars(s)
}

/// Whether `s` is a name that a table or a column may have.
pub fn is_valid_name(s: &String) -> (r: bool)
    ensures
        r == valid_name(s@),
{
    !s.as_str().is_empty() && s.is_ascii()
}

/// The type of the values of a column.
#[derive(PartialEq, Eq, Structural, Debug, Clone, Copy)]
pub enum ColumnType {
    Int,
    Text,
}

/// A column of a table.
#[derive(PartialEq, Debug, Clone)]
pub struct ColumnSchema {
    pub name: String,
    pub typ: ColumnType,
    pub nullable: bool,
}

impl ColumnSchema {
    /// The column `name` of type `typ`.
    #[must_use]
    pub fn new(name: &str, typ: ColumnType, nullable: bool) -> (r: ColumnSchema)
        ensures
            r.name@ == name@,
            r.typ == typ,
            r.nullable == nullable,
    {
        ColumnSchema { name: String::from_str(name), typ, nullable }
    }

    /// A copy of this column.
    pub fn duplicate(&self) -> (r: ColumnSchema)
        ensures
            r == *self,
    {
        ColumnSchema { name: self.name.clone(), typ: self.typ, nullable: self.nullable }
    }
}

/// The columns of a table, in order.
#[derive(PartialEq, Debug, Clone)]
pub struct TableSchema {
    pub columns: Vec<ColumnSchema>,
}

/// What can be wrong with a table schema.
#[derive(Debug, Eq, PartialEq, Clone)]
pub enum TableSchemaError {
    InvalidTableName,
    InvalidColumnName { name: String },
    DuplicateColumn { name: String },
    MissingColumns,
}

/// Column `i` has the name of a column before it.
pub open spec fn seen_before(cols: Seq<ColumnSchema>, i: int) -> bool {
    exists|j: int| 0 <= j < i && #[trigger] cols[j].name@ == cols[i].name@
}

/// What is wrong with column `i`: its name repeats an earlier one, or is not a valid name.
pub open spec fn column_errors(cols: Seq<ColumnSchema>, i: int) -> Seq<TableSchemaError> {
    (if seen_before(cols, i) {
        seq![TableSchemaError::DuplicateColumn { name: cols[i].name }]
    } else {
        Seq::empty()
    }) + (if valid_name(cols[i].name@) {
        Seq::empty()
    } else {
        seq![TableSchemaError::InvalidColumnName { name: cols[i].name }]
    })
}

/// What is wrong with the first `n` columns, column by column.
pub open spec fn columns_errors(cols: Seq<ColumnSchema>, n: int) -> Seq<TableSchemaError>
    decreases n,
{
    if n <= 0 {
        Seq::empty()
    } else {
        columns_errors(cols, n - 1) + column_errors(cols, n - 1)
    }
}

/// What is wrong with a schema of the columns `cols`, in the order in which it is reported.
pub open spec fn schema_errors(cols: Seq<ColumnSchema>) -> Seq<TableSchemaError> {
    (if cols.len() == 0 {
        seq![TableSchemaError::MissingColumns]
    } else {
        Seq::empty()
    }) + columns_errors(cols, cols.len() as int)
}

/// A schema that a table may have: some columns, each with a valid name, no two with the same name.
pub open spec fn valid_schema(cols: Seq<ColumnSchema>) -> bool {
    &&& cols.len() > 0
    &&& forall|i: int| 0 <= i < cols.len() ==> valid_name(#[trigger] cols[i].name@)
    &&& forall|i: int, j: int|
        0 <= i < j < cols.len() ==> #[trigger] cols[i].name@ != #[trigger] cols[j].name@
}

/// Whether column `i` has the name of a column before it.
fn name_seen_before(columns: &Vec<ColumnSchema>, i: usize) -> (r: bool)
    requires
        i < columns@.len(),
    ensures
        r == seen_before(columns@, i as int),
{
    let mut j: usize = 0;
    while j < i
        invariant
            i < columns@.len(),
            j <= i,
            forall|k: int| 0 <= k < j ==> #[trigger] columns@[k].name@ != columns@[i as int].name@,
        decreases i - j,
    {
        if columns[j].name == columns[i].name {
            return true;
        }
        j = j + 1;
    }
    false
}

impl TableSchema {
    /// Everything that is wrong with this schema: `MissingColumns` when it
    /// has no column, then for each column in order `DuplicateColumn` when an
    /// earlier column has its name and `InvalidColumnName` when its name is
    /// empty or not ASCII.
    #[must_use]
    pub fn validate(&self) -> (errors: Vec<TableSchemaError>)
        ensures
            errors@ == schema_errors(self.columns@),
    {
        let mut errors: Vec<TableSchemaError> = Vec::new();
        if self.columns.len() == 0 {
            errors.push(TableSchemaError::MissingColumns);
        }
        let ghost head = errors@;
        let n = self.columns.len();
        let mut i: usize = 0;
        while i < n
            invariant
                n == self.columns@.len(),
                i <= n,
                head == (if n == 0 {
                    seq![TableSchemaError::MissingColumns]
                } else {
                    Seq::<TableSchemaError>::empty()
                }),
                errors@ == head + columns_errors(self.columns@, i as int),
            decreases n - i,
        {
            let ghost before = errors@;
            if name_seen_before(&self.columns, i) {
                errors.push(TableSchemaError::DuplicateColumn { name: self.columns[i].name.clone() });
            }
            if !is_valid_name(&self.columns[i].name) {
                errors.push(
                    TableSchemaError::InvalidColumnName { name: self.columns[i].name.clone() },
                );
            }
            assert(errors@ =~= before + column_errors(self.columns@, i as int));
            assert(columns_errors(self.columns@, i + 1) == columns_errors(self.columns@, i as int)
                + column_errors(self.columns@, i as int));
            i = i + 1;
        }
        errors
    }

    /// A copy of this schema.
    pub fn duplicate(&self) -> (r: TableSchema)
        ensures
            r.columns@ == self.columns@,
    {
        let mut columns: Vec<ColumnSchema> = Vec::new();
        let n = self.columns.len();
        let mut i: usize = 0;
        while i < n
            invariant
                n == self.columns@.len(),
                i <= n,
                columns@ == self.columns@.take(i as int),
            decreases n - i,
        {
            columns.push(self.columns[i].duplicate());
            assert(columns@ =~= self.columns@.take(i + 1));
            i = i + 1;
        }
        assert(columns@ =~= self.columns@);
        TableSchema { columns }
    }
}

proof fn lemma_columns_errors_empty(cols: Seq<ColumnSchema>, n: int)
    requires
        0 <= n <= cols.len(),
    ensures
        columns_errors(cols, n).len() == 0 <==> forall|i: int|
            0 <= i < n ==> !seen_before(cols, i) && valid_name(#[trigger] cols[i].name@),
    decreases n,
{
    if n > 0 {
        lemma_columns_errors_empty(cols, n - 1);
        assert(columns_errors(cols, n).len() == columns_errors(cols, n - 1).len() + column_errors(
            cols,
            n - 1,
        ).len());
    }
}

/// `validate` finds nothing wrong exactly with the schemas that a table may have.
pub proof fn law_validate_accepts_exactly_valid_schemas(cols: Seq<ColumnSchema>)
    ensures
        schema_errors(cols).len() == 0 <==> valid_schema(cols),
{
    lemma_columns_errors_empty(cols, cols.len() as int);
    if schema_errors(cols).len() == 0 {
        assert forall|i: int, j: int|
            0 <= i < j < cols.len() implies #[trigger] cols[i].name@ != #[trigger] cols[j].name@ by {
            assert(!seen_before(cols, j));
        }
    }
    if valid_schema(cols) {
        assert forall|i: int| 0 <= i < cols.len() implies !seen_before(cols, i) by {
            if seen_before(cols, i) {
                let j = choose|j: int| 0 <= j < i && #[trigger] cols[j].name@ == cols[i].name@;
                assert(cols[j].name@ != cols[i].name@);
            }
        }
    }
}

/// A table: its id, its name and its schema.
#[derive(PartialEq, Debug)]
pub struct Table {
    pub id: TableId,
    pub name: TableName,
    pub schema: TableSchema,
}

/// The catalog: meta-information on the database and the map from table names to table ids.
#[derive(Debug)]
pub struct Catalog {
    pub engine: DbEngine,
    pub storage_type: StorageType,
    pub version: u16,
    pub next_table_id: TableId,
    pub tables: TableMap,
}

/// What a catalog holds, with its tables as a map from names to ids.
pub struct CatalogView {
    pub engine: DbEngine,
    pub storage_type: StorageType,
    pub version: u16,
    pub next_table_id: u16,
    pub tables: Map<Seq<char>, u16>,
}

impl View for Catalog {
    type V = CatalogView;

    open spec fn view(&self) -> CatalogView {
        CatalogView {
            engine: self.engine,
            storage_type: self.storage_type,
            version: self.version,
            next_table_id: self.next_table_id.0,
            tables: self.tables@,
        }
    }
}

impl CatalogView {
    /// A new catalog: the latest version, no tables, and 1 as the first table id.
    pub open spec fn initial() -> CatalogView {
        CatalogView {
            engine: DbEngine::Komora,
            storage_type: StorageType::RowOriented,
            version: CATALOG_LATEST_VERSION,
            next_table_id: 1,
            tables: Map::empty(),
        }
    }

    /// The id of the table `name`, if the catalog has one.
    pub open spec fn table_id(self, name: Seq<char>) -> Option<u16> {
        if self.tables.contains_key(name) {
            Some(self.tables[name])
        } else {
            None
        }
    }

    /// The catalog with the table `name` added under the next id.
    pub open spec fn with_table(self, name: Seq<char>) -> CatalogView {
        CatalogView {
            tables: self.tables.insert(name, self.next_table_id),
            next_table_id: (self.next_table_id + 1) as u16,
            ..self
        }
    }

    /// The catalog without the table `name`.
    pub open spec fn without_table(self, name: Seq<char>) -> CatalogView {
        CatalogView { tables: self.tables.remove(name), ..self }
    }

    /// Every table id is below the next id to hand out.
    pub open spec fn ids_below_next(self) -> bool {
        forall|k: Seq<char>| #[trigger] self.tables.contains_key(k) ==> self.tables[k] < self.next_table_id
    }

    /// No two tables share an id.
    pub open spec fn ids_distinct(self) -> bool {
        forall|a: Seq<char>, b: Seq<char>|
            #[trigger] self.tables.contains_key(a) && #[trigger] self.tables.contains_key(b) && a != b
                ==> self.tables[a] != self.tables[b]
    }
}

impl Catalog {
    /// A new catalog of the latest version, with no tables.
    #[must_use]
    pub fn new() -> (r: Catalog)
        ensures
            r@ == CatalogView::initial(),
    {
        Catalog {
            engine: DbEngine::Komora,
            storage_type: StorageType::RowOriented,
            version: CATALOG_LATEST_VERSION,
            next_table_id: TableId(1),
            tables: TableMap::new(),
        }
    }

    /// Adds the table `name` under the next table id and hands that id out;
    /// refuses a name that the catalog has already.
    pub fn add_table(&mut self, name: TableName) -> (r: Result<TableId, Error>)
        requires
            old(self)@.tables.contains_key(name.0@) || old(self).next_table_id.0 < u16::MAX,
        ensures
            old(self)@.tables.contains_key(name.0@) ==> {
                &&& r == Err::<TableId, Error>(Error::TableAlreadyExists { name })
                &&& final(self)@ == old(self)@
            },
            !old(self)@.tables.contains_key(name.0@) ==> {
                &&& r == Ok::<TableId, Error>(old(self).next_table_id)
                &&& final(self)@ == old(self)@.with_table(name.0@)
            },
    {
        if self.tables.contains_key(&name) {
            return Err(Error::TableAlreadyExists { name });
        }
        let table_id = self.next_table_id;
        self.tables.insert(name, table_id);
        self.next_table_id = table_id.next();
        Ok(table_id)
    }

    /// Takes the table `name` out of the catalog and gives back its id.
    pub fn remove_table(&mut self, name: &TableName) -> (r: Result<TableId, Error>)
        ensures
            match old(self)@.table_id(name.0@) {
                Some(id) => r == Ok::<TableId, Error>(TableId(id)) && final(self)@ == old(
                    self,
                )@.without_table(name.0@),
                None => r == Err::<TableId, Error>(Error::TableNotFound) && final(self)@ == old(
                    self,
                )@,
            },
    {
        match self.tables.remove(name) {
            Some(id) => Ok(id),
            None => {
                assert(old(self)@.tables.remove(name.0@) =~= old(self)@.tables);
                Err(Error::TableNotFound)
            },
        }
    }

    /// The id of the table `name`.
    pub fn get_table_id(&self, name: &TableName) -> (r: Result<TableId, Error>)
        ensures
            match self@.table_id(name.0@) {
                Some(id) => r == Ok::<TableId, Error>(TableId(id)),
                None => r == Err::<TableId, Error>(Error::TableNotFound),
            },
    {
        match self.tables.get(name) {
            Some(id) => Ok(id),
            None => Err(Error::TableNotFound),
        }
    }
}

impl Default for Catalog {
    fn default() -> (r: Catalog)
        ensures
            r@ == CatalogView::initial(),
    {
        Catalog::new()
    }
}

} // verus!
