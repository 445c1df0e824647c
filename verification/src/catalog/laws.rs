//! What holds of the catalog across its operations.
use vstd::prelude::*;

use crate::catalog::table_map::names_ascending;
use crate::catalog::{
    column_errors, columns_errors, schema_errors, seen_before, valid_name, CatalogView,
    ColumnSchema, TableSchemaError,
};
use crate::text::{chars_lt, lemma_chars_lt_irreflexive, lemma_chars_lt_total};

verus! {

/// A table added to the catalog is found under the id that adding it handed out.
pub proof fn law_lookup_after_add(c: CatalogView, name: Seq<char>)
    requires
        !c.tables.contains_key(name),
    ensures
        c.with_table(name).table_id(name) == Some(c.next_table_id),
{
}

/// Adding a table leaves the ids of the other tables as they were.
pub proof fn law_add_keeps_other_tables(c: CatalogView, name: Seq<char>, other: Seq<char>)
    requires
        other != name,
    ensures
        c.with_table(name).table_id(other) == c.table_id(other),
{
}

/// Once a table is added, adding it again is refused: the catalog has its name.
pub proof fn law_add_twice_refused(c: CatalogView, name: Seq<char>)
    ensures
        c.with_table(name).tables.contains_key(name),
{
}

/// A table dropped from the catalog is no longer found.
pub proof fn law_lookup_after_remove(c: CatalogView, name: Seq<char>)
    ensures
        c.without_table(name).table_id(name) == None::<u16>,
{
}

/// Dropping a table leaves the ids of the other tables as they were.
pub proof fn law_remove_keeps_other_tables(c: CatalogView, name: Seq<char>, other: Seq<char>)
    requires
        other != name,
    ensures
        c.without_table(name).table_id(other) == c.table_id(other),
{
}

/// Dropping a table just added gives back the tables as they were before,
/// though the id it had is not handed out again.
pub proof fn law_remove_undoes_add(c: CatalogView, name: Seq<char>)
    requires
        !c.tables.contains_key(name),
    ensures
        c.with_table(name).table_id(name) == Some(c.next_table_id),
        c.with_table(name).without_table(name).tables == c.tables,
        c.with_table(name).without_table(name).next_table_id == (c.next_table_id + 1) as u16,
{
    assert(c.with_table(name).without_table(name).tables =~= c.tables);
}

/// A new catalog has no tables, and hands out ids from 1.
pub proof fn law_initial_catalog(name: Seq<char>)
    ensures
        CatalogView::initial().table_id(name) == None::<u16>,
        CatalogView::initial().next_table_id == 1,
        CatalogView::initial().ids_below_next(),
        CatalogView::initial().ids_distinct(),
{
}

/// Table ids are handed out in increasing order and never twice: where every
/// id is below the next one and no two tables share one, adding a table gives
/// it an id that no table has, and keeps both properties, as dropping does.
pub proof fn law_ids_stay_unique(c: CatalogView, name: Seq<char>, other: Seq<char>)
    requires
        c.ids_below_next(),
        c.ids_distinct(),
        c.next_table_id < u16::MAX,
    ensures
        c.tables.contains_key(other) ==> c.tables[other] != c.next_table_id,
        !c.tables.contains_key(name) ==> c.with_table(name).ids_below_next(),
        !c.tables.contains_key(name) ==> c.with_table(name).ids_distinct(),
        c.without_table(name).ids_below_next(),
        c.without_table(name).ids_distinct(),
{
}

/// Names in ascending order are determined by which names they are: two
/// such listings of the same names are equal. So the listing of the tables
/// is a function of the catalog alone.
pub proof fn law_listing_determined_by_names(a: Seq<Seq<char>>, b: Seq<Seq<char>>)
    requires
        names_ascending(a),
        names_ascending(b),
        forall|k: Seq<char>| a.contains(k) <==> b.contains(k),
    ensures
        a == b,
    decreases a.len(),
{
    if a.len() == 0 {
        if b.len() > 0 {
            assert(b.contains(b[0]));
        }
        assert(a =~= b);
    } else if b.len() == 0 {
        assert(a.contains(a[0]));
    } else {
        // The first names of both are the least of the same names.
        assert(b.contains(a[0]));
        assert(a.contains(b[0]));
        let i = choose|i: int| 0 <= i < b.len() && b[i] == a[0];
        let j = choose|j: int| 0 <= j < a.len() && a[j] == b[0];
        if a[0] != b[0] {
            assert(i > 0);
            assert(j > 0);
            assert(chars_lt(b[0], b[i]));
            assert(chars_lt(a[0], a[j]));
            lemma_chars_lt_total(a[0], b[0]);
        }
        let a2 = a.drop_first();
        let b2 = b.drop_first();
        assert forall|k: Seq<char>| a2.contains(k) <==> b2.contains(k) by {
            if a2.contains(k) {
                let x = choose|x: int| 0 <= x < a2.len() && a2[x] == k;
                assert(a[x + 1] == k);
                assert(chars_lt(a[0], a[x + 1]));
                lemma_chars_lt_irreflexive(k);
                assert(b.contains(k));
                let y = choose|y: int| 0 <= y < b.len() && b[y] == k;
                if y == 0 {
                    assert(false);
                }
                assert(b2[y - 1] == k);
            }
            if b2.contains(k) {
                let y = choose|y: int| 0 <= y < b2.len() && b2[y] == k;
                assert(b[y + 1] == k);
                assert(chars_lt(b[0], b[y + 1]));
                lemma_chars_lt_irreflexive(k);
                assert(a.contains(k));
                let x = choose|x: int| 0 <= x < a.len() && a[x] == k;
                if x == 0 {
                    assert(false);
                }
                assert(a2[x - 1] == k);
            }
        }
        assert forall|x: int, y: int| 0 <= x < y < a2.len() implies chars_lt(
            #[trigger] a2[x],
            #[trigger] a2[y],
        ) by {
            assert(chars_lt(a[x + 1], a[y + 1]));
        }
        assert forall|x: int, y: int| 0 <= x < y < b2.len() implies chars_lt(
            #[trigger] b2[x],
            #[trigger] b2[y],
        ) by {
            assert(chars_lt(b[x + 1], b[y + 1]));
        }
        law_listing_determined_by_names(a2, b2);
        assert(a =~= seq![a[0]] + a2);
        assert(b =~= seq![b[0]] + b2);
    }
}

proof fn lemma_concat_contains<A>(a: Seq<A>, b: Seq<A>, e: A)
    ensures
        (a + b).contains(e) <==> a.contains(e) || b.contains(e),
{
    if (a + b).contains(e) {
        let k = choose|k: int| 0 <= k < (a + b).len() && (a + b)[k] == e;
        if k < a.len() {
            assert(a[k] == e);
        } else {
            assert(b[k - a.len()] == e);
        }
    }
    if a.contains(e) {
        let k = choose|k: int| 0 <= k < a.len() && a[k] == e;
        assert((a + b)[k] == e);
    }
    if b.contains(e) {
        let k = choose|k: int| 0 <= k < b.len() && b[k] == e;
        assert((a + b)[k + a.len()] == e);
    }
}

proof fn lemma_single_contains<A>(x: A, e: A)
    ensures
        seq![x].contains(e) <==> x == e,
{
    if x == e {
        assert(seq![x][0] == e);
    }
}

proof fn lemma_column_errors_contains(cols: Seq<ColumnSchema>, i: int, e: TableSchemaError)
    ensures
        column_errors(cols, i).contains(e) <==> (seen_before(cols, i)
            && e == TableSchemaError::DuplicateColumn { name: cols[i].name }) || (!valid_name(
            cols[i].name@,
        ) && e == TableSchemaError::InvalidColumnName { name: cols[i].name }),
{
    let d = TableSchemaError::DuplicateColumn { name: cols[i].name };
    let v = TableSchemaError::InvalidColumnName { name: cols[i].name };
    let first = if seen_before(cols, i) {
        seq![d]
    } else {
        Seq::<TableSchemaError>::empty()
    };
    let second = if valid_name(cols[i].name@) {
        Seq::<TableSchemaError>::empty()
    } else {
        seq![v]
    };
    lemma_concat_contains(first, second, e);
    lemma_single_contains(d, e);
    lemma_single_contains(v, e);
}

proof fn lemma_columns_errors_contains(cols: Seq<ColumnSchema>, n: int, e: TableSchemaError)
    requires
        0 <= n,
    ensures
        columns_errors(cols, n).contains(e) <==> exists|i: int|
            0 <= i < n && #[trigger] column_errors(cols, i).contains(e),
    decreases n,
{
    if n > 0 {
        lemma_columns_errors_contains(cols, n - 1, e);
        lemma_concat_contains(columns_errors(cols, n - 1), column_errors(cols, n - 1), e);
        if columns_errors(cols, n).contains(e) {
            if !columns_errors(cols, n - 1).contains(e) {
                assert(column_errors(cols, n - 1).contains(e));
            }
        }
    }
}

/// `validate` calls a column name invalid exactly when some column has that
/// name and the name is empty or not ASCII.
pub proof fn law_validate_invalid_column_names(cols: Seq<ColumnSchema>, name: String)
    ensures
        schema_errors(cols).contains(TableSchemaError::InvalidColumnName { name }) <==> (exists|i: int|
            0 <= i < cols.len() && #[trigger] cols[i].name == name) && !valid_name(name@),
{
    let e = TableSchemaError::InvalidColumnName { name };
    let head = if cols.len() == 0 {
        seq![TableSchemaError::MissingColumns]
    } else {
        Seq::<TableSchemaError>::empty()
    };
    lemma_concat_contains(head, columns_errors(cols, cols.len() as int), e);
    lemma_single_contains(TableSchemaError::MissingColumns, e);
    lemma_columns_errors_contains(cols, cols.len() as int, e);
    if schema_errors(cols).contains(e) {
        let i = choose|i: int| 0 <= i < cols.len() && #[trigger] column_errors(cols, i).contains(e);
        lemma_column_errors_contains(cols, i, e);
    }
    if (exists|i: int| 0 <= i < cols.len() && #[trigger] cols[i].name == name) && !valid_name(
        name@,
    ) {
        let i = choose|i: int| 0 <= i < cols.len() && #[trigger] cols[i].name == name;
        lemma_column_errors_contains(cols, i, e);
    }
}

/// `validate` reports a column name as a duplicate exactly when some column of
/// that name comes after another column of the same name.
pub proof fn law_validate_duplicate_columns(cols: Seq<ColumnSchema>, name: String)
    ensures
        schema_errors(cols).contains(TableSchemaError::DuplicateColumn { name }) <==> exists|
            i: int,
            j: int,
        | 0 <= i < j < cols.len() && #[trigger] cols[j].name == name && #[trigger] cols[i].name@
            == name@,
{
    let e = TableSchemaError::DuplicateColumn { name };
    let head = if cols.len() == 0 {
        seq![TableSchemaError::MissingColumns]
    } else {
        Seq::<TableSchemaError>::empty()
    };
    lemma_concat_contains(head, columns_errors(cols, cols.len() as int), e);
    lemma_single_contains(TableSchemaError::MissingColumns, e);
    lemma_columns_errors_contains(cols, cols.len() as int, e);
    if schema_errors(cols).contains(e) {
        let j = choose|j: int| 0 <= j < cols.len() && #[trigger] column_errors(cols, j).contains(e);
        lemma_column_errors_contains(cols, j, e);
        let i = choose|i: int| 0 <= i < j && #[trigger] cols[i].name@ == cols[j].name@;
        assert(cols[j].name == name && cols[i].name@ == name@);
    }
    if exists|i: int, j: int|
        0 <= i < j < cols.len() && #[trigger] cols[j].name == name && #[trigger] cols[i].name@
            == name@ {
        let (i, j) = choose|i: int, j: int|
            0 <= i < j < cols.len() && #[trigger] cols[j].name == name && #[trigger] cols[i].name@
                == name@;
        assert(cols[i].name@ == cols[j].name@);
        assert(seen_before(cols, j));
        lemma_column_errors_contains(cols, j, e);
    }
}

/// `validate` reports missing columns exactly when there are none, and never
/// reports an invalid table name.
pub proof fn law_validate_missing_columns(cols: Seq<ColumnSchema>)
    ensures
        schema_errors(cols).contains(TableSchemaError::MissingColumns) <==> cols.len() == 0,
        !schema_errors(cols).contains(TableSchemaError::InvalidTableName),
{
    let head = if cols.len() == 0 {
        seq![TableSchemaError::MissingColumns]
    } else {
        Seq::<TableSchemaError>::empty()
    };
    let m = TableSchemaError::MissingColumns;
    let t = TableSchemaError::InvalidTableName;
    lemma_concat_contains(head, columns_errors(cols, cols.len() as int), m);
    lemma_concat_contains(head, columns_errors(cols, cols.len() as int), t);
    lemma_single_contains(m, m);
    lemma_single_contains(m, t);
    lemma_columns_errors_contains(cols, cols.len() as int, m);
    lemma_columns_errors_contains(cols, cols.len() as int, t);
    if columns_errors(cols, cols.len() as int).contains(m) {
        let i = choose|i: int| 0 <= i < cols.len() && #[trigger] column_errors(cols, i).contains(m);
        lemma_column_errors_contains(cols, i, m);
    }
    if columns_errors(cols, cols.len() as int).contains(t) {
        let i = choose|i: int| 0 <= i < cols.len() && #[trigger] column_errors(cols, i).contains(t);
        lemma_column_errors_contains(cols, i, t);
    }
}

proof fn lemma_ascii_char(c: char)
    requires
        (c as nat) < 128,
    ensures
        '\0' <= c && c <= '\u{7f}',
{
    assert(('\u{7f}' as nat) == 127);
}

/// A name that a table or column may have is exactly a non-empty one whose
/// characters are all ASCII, that is of code point at most 0x7f.
pub proof fn law_valid_names_are_nonempty_ascii(s: Seq<char>)
    ensures
        valid_name(s) <==> s.len() > 0 && forall|k: int| 0 <= k < s.len() ==> (#[trigger] s[k] as nat) < 128,
{
    vstd::utf8::is_ascii_chars_nat_bound(s);
    if s.len() > 0 && forall|k: int| 0 <= k < s.len() ==> (#[trigger] s[k] as nat) < 128 {
        assert forall|k: int| 0 <= k < s.len() implies '\0' <= #[trigger] s[k] <= '\u{7f}' by {
            lemma_ascii_char(s[k]);
        }
    }
}

} // verus!
