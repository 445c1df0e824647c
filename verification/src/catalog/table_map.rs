//! The catalog's map from table names to table ids, kept in name order.
use vstd::prelude::*;

use crate::catalog::{TableId, TableName};
use crate::text::{
    chars_lt, lemma_chars_lt_irreflexive, lemma_chars_lt_total, lemma_chars_lt_transitive,
    name_precedes,
};

verus! {

/// The name of an entry, as characters.
pub open spec fn entry_name(e: (TableName, TableId)) -> Seq<char> {
    e.0.0@
}

/// Names that stand in strictly increasing order, so none occurs twice.
pub open spec fn names_ascending(names: Seq<Seq<char>>) -> bool {
    forall|i: int, j: int|
        0 <= i < j < names.len() ==> chars_lt(#[trigger] names[i], #[trigger] names[j])
}

/// The names of a sequence of table names, as characters.
pub open spec fn names_of(names: Seq<TableName>) -> Seq<Seq<char>> {
    names.map_values(|n: TableName| n.0@)
}

/// The names of a sequence of entries, as characters.
pub open spec fn entry_names(s: Seq<(TableName, TableId)>) -> Seq<Seq<char>> {
    s.map_values(|e: (TableName, TableId)| entry_name(e))
}

/// Some entry of `s` has the name `k`.
pub open spec fn has_entry(s: Seq<(TableName, TableId)>, k: Seq<char>) -> bool {
    exists|i: int| 0 <= i < s.len() && entry_name(#[trigger] s[i]) == k
}

/// The map that a sequence of entries with distinct names stands for.
pub open spec fn entries_map(s: Seq<(TableName, TableId)>) -> Map<Seq<char>, u16> {
    Map::new(
        |k: Seq<char>| has_entry(s, k),
        |k: Seq<char>| s[choose|i: int| 0 <= i < s.len() && entry_name(#[trigger] s[i]) == k].1.0,
    )
}

/// In a sequence in name order, the map sends each entry's name to its id.
pub proof fn lemma_entries_map_at(s: Seq<(TableName, TableId)>, i: int)
    requires
        names_ascending(entry_names(s)),
        0 <= i < s.len(),
    ensures
        entries_map(s).contains_key(entry_name(s[i])),
        entries_map(s)[entry_name(s[i])] == s[i].1.0,
{
    let k = entry_name(s[i]);
    assert(has_entry(s, k));
    let j = choose|j: int| 0 <= j < s.len() && entry_name(#[trigger] s[j]) == k;
    if j != i {
        lemma_chars_lt_irreflexive(k);
        if j < i {
            assert(chars_lt(entry_names(s)[j], entry_names(s)[i]));
        } else {
            assert(chars_lt(entry_names(s)[i], entry_names(s)[j]));
        }
    }
}

/// Putting `x` at `pos`, between the names below it and those above it,
/// keeps the order and adds `x` to the map.
proof fn lemma_insert_entry(s: Seq<(TableName, TableId)>, pos: int, x: (TableName, TableId))
    requires
        names_ascending(entry_names(s)),
        0 <= pos <= s.len(),
        forall|j: int| 0 <= j < pos ==> chars_lt(entry_name(#[trigger] s[j]), entry_name(x)),
        forall|j: int| pos <= j < s.len() ==> chars_lt(entry_name(x), entry_name(#[trigger] s[j])),
    ensures
        names_ascending(entry_names(s.insert(pos, x))),
        entries_map(s.insert(pos, x)) == entries_map(s).insert(entry_name(x), x.1.0),
{
    let t = s.insert(pos, x);
    s.insert_ensures(pos, x);
    assert(t[pos] == x);
    assert forall|i: int, j: int|
        0 <= i < j < entry_names(t).len() implies chars_lt(
        #[trigger] entry_names(t)[i],
        #[trigger] entry_names(t)[j],
    ) by {
        if j < pos {
            assert(chars_lt(entry_names(s)[i], entry_names(s)[j]));
        } else if j == pos {
            assert(entry_names(t)[j] == entry_name(x));
        } else if i < pos {
            assert(t[j] == s[j - 1]);
            assert(chars_lt(entry_name(s[i]), entry_name(x)));
            assert(chars_lt(entry_name(x), entry_name(s[j - 1])));
            lemma_chars_lt_transitive(entry_name(s[i]), entry_name(x), entry_name(s[j - 1]));
        } else if i == pos {
            assert(t[j] == s[j - 1]);
        } else {
            assert(t[i] == s[i - 1]);
            assert(t[j] == s[j - 1]);
            assert(chars_lt(entry_names(s)[i - 1], entry_names(s)[j - 1]));
        }
    }
    let m = entries_map(s).insert(entry_name(x), x.1.0);
    assert forall|k: Seq<char>| #[trigger] m.contains_key(k) implies entries_map(t).contains_key(k)
        && entries_map(t)[k] == m[k] by {
        if k == entry_name(x) {
            lemma_entries_map_at(t, pos);
        } else {
            let j = choose|j: int| 0 <= j < s.len() && entry_name(#[trigger] s[j]) == k;
            lemma_entries_map_at(s, j);
            if j < pos {
                lemma_entries_map_at(t, j);
            } else {
                assert(t[j + 1] == s[j]);
                lemma_entries_map_at(t, j + 1);
            }
        }
    }
    assert forall|k: Seq<char>| #[trigger]
        entries_map(t).contains_key(k) implies m.contains_key(k) by {
        let j = choose|j: int| 0 <= j < t.len() && entry_name(#[trigger] t[j]) == k;
        if j < pos {
            assert(has_entry(s, k));
        } else if j > pos {
            assert(t[j] == s[j - 1]);
            assert(has_entry(s, k));
        }
    }
    assert(entries_map(t) =~= m);
}

/// Taking out the entry at `pos` keeps the order and takes its name out of the map.
proof fn lemma_remove_entry(s: Seq<(TableName, TableId)>, pos: int)
    requires
        names_ascending(entry_names(s)),
        0 <= pos < s.len(),
    ensures
        names_ascending(entry_names(s.remove(pos))),
        entries_map(s.remove(pos)) == entries_map(s).remove(entry_name(s[pos])),
{
    let t = s.remove(pos);
    s.remove_ensures(pos);
    let kx = entry_name(s[pos]);
    assert forall|i: int, j: int|
        0 <= i < j < entry_names(t).len() implies chars_lt(
        #[trigger] entry_names(t)[i],
        #[trigger] entry_names(t)[j],
    ) by {
        let i2 = if i < pos {
            i
        } else {
            i + 1
        };
        let j2 = if j < pos {
            j
        } else {
            j + 1
        };
        assert(t[i] == s[i2]);
        assert(t[j] == s[j2]);
        assert(chars_lt(entry_names(s)[i2], entry_names(s)[j2]));
    }
    let m = entries_map(s).remove(kx);
    assert forall|k: Seq<char>| #[trigger] m.contains_key(k) implies entries_map(t).contains_key(k)
        && entries_map(t)[k] == m[k] by {
        let j = choose|j: int| 0 <= j < s.len() && entry_name(#[trigger] s[j]) == k;
        lemma_entries_map_at(s, j);
        assert(j != pos);
        if j < pos {
            lemma_entries_map_at(t, j);
        } else {
            assert(t[j - 1] == s[j]);
            lemma_entries_map_at(t, j - 1);
        }
    }
    assert forall|k: Seq<char>| #[trigger]
        entries_map(t).contains_key(k) implies m.contains_key(k) by {
        let j = choose|j: int| 0 <= j < t.len() && entry_name(#[trigger] t[j]) == k;
        let j2 = if j < pos {
            j
        } else {
            j + 1
        };
        assert(t[j] == s[j2]);
        assert(has_entry(s, k));
        assert(j2 != pos);
        if j2 < pos {
            assert(chars_lt(entry_names(s)[j2], entry_names(s)[pos]));
        } else {
            assert(chars_lt(entry_names(s)[pos], entry_names(s)[j2]));
        }
        lemma_chars_lt_irreflexive(k);
    }
    assert(entries_map(t) =~= m);
}

/// A map from table names to table ids, as std's `BTreeMap` holds it: each
/// name at most once, and the names in ascending order.
#[derive(Debug)]
pub struct TableMap {
    entries: Vec<(TableName, TableId)>,
}

impl View for TableMap {
    type V = Map<Seq<char>, u16>;

    closed spec fn view(&self) -> Map<Seq<char>, u16> {
        entries_map(self.entries@)
    }
}

impl TableMap {
    #[verifier::type_invariant]
    closed spec fn wf(&self) -> bool {
        names_ascending(entry_names(self.entries@))
    }

    /// An empty map.
    pub fn new() -> (r: TableMap)
        ensures
            r@ == Map::<Seq<char>, u16>::empty(),
    {
        let r = TableMap { entries: Vec::new() };
        assert(r@ =~= Map::<Seq<char>, u16>::empty());
        r
    }

    /// Where `name` stands: the first position whose name does not come
    /// before it, and whether the name there is `name`.
    fn position(&self, name: &TableName) -> (r: (usize, bool))
        ensures
            r.0 <= self.entries@.len(),
            forall|j: int|
                0 <= j < r.0 ==> chars_lt(entry_name(#[trigger] self.entries@[j]), name.0@),
            r.1 ==> r.0 < self.entries@.len() && entry_name(self.entries@[r.0 as int]) == name.0@,
            !r.1 ==> forall|j: int|
                r.0 <= j < self.entries@.len() ==> chars_lt(
                    name.0@,
                    entry_name(#[trigger] self.entries@[j]),
                ),
            r.1 == self@.contains_key(name.0@),
    {
        proof {
            use_type_invariant(self);
        }
        let n = self.entries.len();
        let mut i: usize = 0;
        while i < n && name_precedes(self.entries[i].0.0.as_str(), name.0.as_str())
            invariant
                n == self.entries@.len(),
                i <= n,
                forall|j: int|
                    0 <= j < i ==> chars_lt(entry_name(#[trigger] self.entries@[j]), name.0@),
            decreases n - i,
        {
            i = i + 1;
        }
        let ghost s = self.entries@;
        if i < n && self.entries[i].0.0 == name.0 {
            proof {
                lemma_entries_map_at(s, i as int);
            }
            (i, true)
        } else {
            proof {
                if i < n {
                    lemma_chars_lt_total(entry_name(s[i as int]), name.0@);
                }
                assert forall|j: int| i <= j < n implies chars_lt(
                    name.0@,
                    entry_name(#[trigger] s[j]),
                ) by {
                    if j > i {
                        assert(chars_lt(entry_names(s)[i as int], entry_names(s)[j]));
                        lemma_chars_lt_transitive(
                            name.0@,
                            entry_name(s[i as int]),
                            entry_name(s[j]),
                        );
                    }
                }
                if self@.contains_key(name.0@) {
                    let j = choose|j: int| 0 <= j < s.len() && entry_name(#[trigger] s[j]) == name.0@;
                    lemma_chars_lt_irreflexive(name.0@);
                    if j < i {
                        assert(chars_lt(entry_name(s[j]), name.0@));
                    } else {
                        assert(chars_lt(name.0@, entry_name(s[j])));
                    }
                }
            }
            (i, false)
        }
    }

    /// Whether `name` has an entry.
    pub fn contains_key(&self, name: &TableName) -> (r: bool)
        ensures
            r == self@.contains_key(name.0@),
    {
        let (_, found) = self.position(name);
        found
    }

    /// The id that `name` maps to, if any.
    pub fn get(&self, name: &TableName) -> (r: Option<TableId>)
        ensures
            r == (if self@.contains_key(name.0@) {
                Some(TableId(self@[name.0@]))
            } else {
                None
            }),
    {
        proof {
            use_type_invariant(self);
        }
        let (i, found) = self.position(name);
        if found {
            proof {
                lemma_entries_map_at(self.entries@, i as int);
            }
            Some(self.entries[i].1)
        } else {
            None
        }
    }

    /// Maps `name` to `id`, and gives back the id it mapped to before, if any.
    pub fn insert(&mut self, name: TableName, id: TableId) -> (r: Option<TableId>)
        ensures
            final(self)@ == old(self)@.insert(name.0@, id.0),
            r == (if old(self)@.contains_key(name.0@) {
                Some(TableId(old(self)@[name.0@]))
            } else {
                None
            }),
    {
        proof {
            use_type_invariant(&*self);
        }
        let (i, found) = self.position(&name);
        let mut entries: Vec<(TableName, TableId)> = Vec::new();
        std::mem::swap(&mut entries, &mut self.entries);
        let ghost s = entries@;
        let ghost k = name.0@;
        if found {
            proof {
                lemma_entries_map_at(s, i as int);
            }
            let (_, old_id) = entries.remove(i);
            proof {
                lemma_remove_entry(s, i as int);
                let t = s.remove(i as int);
                s.remove_ensures(i as int);
                assert forall|j: int| 0 <= j < i implies chars_lt(
                    entry_name(#[trigger] t[j]),
                    k,
                ) by {
                    assert(t[j] == s[j]);
                }
                assert forall|j: int| i <= j < t.len() implies chars_lt(
                    k,
                    entry_name(#[trigger] t[j]),
                ) by {
                    assert(t[j] == s[j + 1]);
                    assert(chars_lt(entry_names(s)[i as int], entry_names(s)[j + 1]));
                }
                lemma_insert_entry(t, i as int, (name, id));
                assert(entries_map(t).insert(k, id.0) =~= entries_map(s).insert(k, id.0));
            }
            entries.insert(i, (name, id));
            self.entries = entries;
            Some(old_id)
        } else {
            proof {
                lemma_insert_entry(s, i as int, (name, id));
            }
            entries.insert(i, (name, id));
            self.entries = entries;
            None
        }
    }

    /// Takes the entry of `name` out, and gives back its id, if it had one.
    pub fn remove(&mut self, name: &TableName) -> (r: Option<TableId>)
        ensures
            final(self)@ == old(self)@.remove(name.0@),
            r == (if old(self)@.contains_key(name.0@) {
                Some(TableId(old(self)@[name.0@]))
            } else {
                None
            }),
    {
        proof {
            use_type_invariant(&*self);
        }
        let (i, found) = self.position(name);
        if found {
            let mut entries: Vec<(TableName, TableId)> = Vec::new();
            std::mem::swap(&mut entries, &mut self.entries);
            let ghost s = entries@;
            proof {
                lemma_entries_map_at(s, i as int);
                lemma_remove_entry(s, i as int);
            }
            let (_, id) = entries.remove(i);
            self.entries = entries;
            Some(id)
        } else {
            proof {
                assert(old(self)@.remove(name.0@) =~= old(self)@);
            }
            None
        }
    }

    /// The names that have entries, in ascending order.
    pub fn keys(&self) -> (r: Vec<TableName>)
        ensures
            names_ascending(names_of(r@)),
            forall|k: Seq<char>| self@.contains_key(k) <==> names_of(r@).contains(k),
    {
        proof {
            use_type_invariant(self);
        }
        let n = self.entries.len();
        let mut r: Vec<TableName> = Vec::new();
        let mut i: usize = 0;
        while i < n
            invariant
                n == self.entries@.len(),
                i <= n,
                names_ascending(entry_names(self.entries@)),
                r@.len() == i,
                names_of(r@) =~= entry_names(self.entries@).take(i as int),
            decreases n - i,
        {
            let ghost before = r@;
            let name = self.entries[i].0.duplicate();
            r.push(name);
            assert(r@ == before.push(name));
            assert(names_of(r@)[i as int] == entry_names(self.entries@)[i as int]);
            assert forall|j: int| 0 <= j < i implies names_of(r@)[j] == names_of(before)[j] by {
                assert(r@[j] == before[j]);
            }
            assert(names_of(r@) =~= entry_names(self.entries@).take(i + 1));
            i = i + 1;
        }
        let ghost s = self.entries@;
        assert(names_of(r@) =~= entry_names(s));
        assert forall|k: Seq<char>| self@.contains_key(k) <==> names_of(r@).contains(k) by {
            if self@.contains_key(k) {
                let j = choose|j: int| 0 <= j < s.len() && entry_name(#[trigger] s[j]) == k;
                assert(names_of(r@)[j] == k);
            }
            if names_of(r@).contains(k) {
                let j = choose|j: int| 0 <= j < names_of(r@).len() && names_of(r@)[j] == k;
                assert(entry_name(s[j]) == k);
            }
        }
        r
    }

    /// The entries in ascending order of their names.
    pub fn entries(&self) -> (r: &Vec<(TableName, TableId)>)
        ensures
            names_ascending(entry_names(r@)),
            self@ == entries_map(r@),
    {
        proof {
            use_type_invariant(self);
        }
        &self.entries
    }
}

} // verus!
