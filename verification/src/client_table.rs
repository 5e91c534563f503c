//! Client side storage of a server table.
use vstd::prelude::*;
use std::collections::BTreeMap;
use crate::value::{CborValue, ValueModel};
use crate::table::{Selection, SelectionModel, TableColumnInfo, TableColumnInfoModel, TableInitData, TableInitDataModel};
use crate::selections::SelectionMap;
use crate::server_table::{with_rows, apply_updates, apply_removals};

verus! {

/// Interface for a client-side table.
///
/// Each call is described by a relation between the storage before and after
/// it, which each kind of storage states for itself.
pub trait TableDataStorage: Sized {
    /// `next` is this storage after taking the table's initial data.
    spec fn initialized(self, next: Self, init_data: TableInitDataModel) -> bool;

    /// `next` is this storage after storing rows under their keys.
    spec fn rows_updated(self, next: Self, keys: Seq<i64>, rows: Seq<Seq<ValueModel>>) -> bool;

    /// `next` is this storage after removing rows by key.
    spec fn rows_deleted(self, next: Self, keys: Seq<i64>) -> bool;

    /// `next` is this storage after a selection changed.
    spec fn selection_updated(self, next: Self, selection: SelectionModel) -> bool;

    /// `next` is this storage after the table was cleared.
    spec fn cleared(self, next: Self) -> bool;

    /// Called when the table should be initialized
    fn on_init_data(&mut self, init_data: TableInitData)
        ensures
            old(self).initialized(*final(self), init_data.deep_view()),
    ;

    /// Called when the table should be updated
    fn update_data(&mut self, keys: Vec<i64>, updated_data: Vec<Vec<CborValue>>)
        ensures
            old(self).rows_updated(*final(self), keys@, updated_data.deep_view()),
    ;

    /// Called when keys should be removed from the table
    fn delete_data(&mut self, keys: Vec<i64>)
        ensures
            old(self).rows_deleted(*final(self), keys@),
    ;

    /// Called when a selection should be updated
    fn update_selection(&mut self, selection: Selection)
        ensures
            old(self).selection_updated(*final(self), selection.deep_view()),
    ;

    /// Called when the table should be cleared
    fn clear(&mut self)
        ensures
            old(self).cleared(*final(self)),
    ;
}

/// Storing each row under its key, in order; extra keys or rows are ignored.
pub open spec fn upsert_all(data: Map<i64, Seq<ValueModel>>, keys: Seq<i64>, rows: Seq<Seq<ValueModel>>) -> Map<
    i64,
    Seq<ValueModel>,
>
    decreases keys.len() + rows.len(),
{
    if keys.len() == 0 || rows.len() == 0 {
        data
    } else if keys.len() > rows.len() {
        upsert_all(data, keys.take(rows.len() as int), rows)
    } else if rows.len() > keys.len() {
        upsert_all(data, keys, rows.take(keys.len() as int))
    } else {
        upsert_all(data, keys.drop_last(), rows.drop_last()).insert(keys.last(), rows.last())
    }
}

/// Removing each key, in order.
pub open spec fn remove_all(data: Map<i64, Seq<ValueModel>>, keys: Seq<i64>) -> Map<i64, Seq<ValueModel>>
    decreases keys.len(),
{
    if keys.len() == 0 {
        data
    } else {
        remove_all(data, keys.drop_last()).remove(keys.last())
    }
}

/// Whether a selection update removes the selection: its row ranges are empty,
/// or it has none and its rows are empty, or it has neither.
pub open spec fn selection_clears(s: SelectionModel) -> bool {
    match s.row_ranges {
        Some(r) => r.len() == 0,
        None => match s.rows {
            Some(r) => r.len() == 0,
            None => true,
        },
    }
}

/// What a client table holds.
pub struct ClientTableModel {
    pub header: Seq<TableColumnInfoModel>,
    pub data: Map<i64, Seq<ValueModel>>,
    pub selections: Map<Seq<char>, SelectionModel>,
}

/// A simple data storage class for use with managed tables.
///
/// This class can be used directly, or used as a model for custom user classes
#[derive(Debug)]
pub struct BasicTable {
    header: Vec<TableColumnInfo>,
    data: BTreeMap<i64, Vec<CborValue>>,
    selections: SelectionMap,
}

impl Default for BasicTable {
    fn default() -> (r: Self)
        ensures
            r.model().header.len() == 0,
            r.model().data == Map::<i64, Seq<ValueModel>>::empty(),
            r.model().selections == Map::<Seq<char>, SelectionModel>::empty(),
    {
        let r = BasicTable { header: Vec::new(), data: BTreeMap::new(), selections: SelectionMap::new() };
        assert(r.model().data =~= Map::<i64, Seq<ValueModel>>::empty());
        r
    }
}

impl BasicTable {
    /// What this table holds.
    pub closed spec fn model(&self) -> ClientTableModel {
        ClientTableModel {
            header: self.header.deep_view(),
            data: self.data@.map_values(|v: Vec<CborValue>| v.deep_view()),
            selections: self.selections@,
        }
    }

    /// Get the current header
    pub fn header(&self) -> (r: &Vec<TableColumnInfo>)
        ensures
            r.deep_view() == self.model().header,
    {
        &self.header
    }

    /// Get a reference to current data
    pub fn current_data(&self) -> (r: &BTreeMap<i64, Vec<CborValue>>)
        ensures
            r@.map_values(|v: Vec<CborValue>| v.deep_view()) == self.model().data,
    {
        &self.data
    }

    fn store_rows(&mut self, keys: Vec<i64>, rows: Vec<Vec<CborValue>>)
        ensures
            final(self).model().data == upsert_all(old(self).model().data, keys@, rows.deep_view()),
            final(self).model().header == old(self).model().header,
            final(self).model().selections == old(self).model().selections,
    {
        let ghost old_data = self.model().data;
        let ghost rows_m = rows.deep_view();
        let n = if keys.len() < rows.len() {
            keys.len()
        } else {
            rows.len()
        };
        let ghost ks = keys@.take(n as int);
        let ghost rs = rows_m.take(n as int);
        proof {
            lemma_upsert_trim(old_data, keys@, rows_m);
            assert(ks.take(0) =~= Seq::<i64>::empty());
            assert(rs.take(0) =~= Seq::<Seq<ValueModel>>::empty());
            assert(self.data@.map_values(|v: Vec<CborValue>| v.deep_view()) == old_data);
        }
        let mut i: usize = 0;
        while i < n
            invariant
                i <= n,
                n <= keys@.len(),
                n <= rows@.len(),
                ks == keys@.take(n as int),
                rs == rows_m.take(n as int),
                rows_m == rows.deep_view(),
                self.data@.map_values(|v: Vec<CborValue>| v.deep_view()) == upsert_all(old_data, ks.take(i as int), rs.take(i as int)),
                self.header.deep_view() == old(self).header.deep_view(),
                self.selections@ == old(self).selections@,
            decreases n - i,
        {
            let ghost before = self.data@;
            proof {
                broadcast use vstd::std_specs::btree::group_btree_axioms;
            }
            self.data.insert(keys[i], crate::server_table::clone_row(&rows[i]));
            proof {
                assert(ks.take(i + 1).drop_last() =~= ks.take(i as int));
                assert(rs.take(i + 1).drop_last() =~= rs.take(i as int));
                assert(ks.take(i + 1).last() == keys@[i as int]);
                assert(rs.take(i + 1).last() == rows_m[i as int]);
                assert(self.data@.map_values(|v: Vec<CborValue>| v.deep_view()) =~= before.map_values(
                    |v: Vec<CborValue>| v.deep_view(),
                ).insert(keys@[i as int], rows_m[i as int]));
            }
            i = i + 1;
        }
        proof {
            assert(ks.take(n as int) =~= ks);
            assert(rs.take(n as int) =~= rs);
        }
    }
}

/// Storing rows only reads as many pairs as both lists have.
proof fn lemma_upsert_trim(data: Map<i64, Seq<ValueModel>>, keys: Seq<i64>, rows: Seq<Seq<ValueModel>>)
    ensures
        ({
            let n = if keys.len() < rows.len() { keys.len() } else { rows.len() };
            upsert_all(data, keys, rows) == upsert_all(data, keys.take(n as int), rows.take(n as int))
        }),
{
    if keys.len() > rows.len() && rows.len() > 0 {
        assert(rows.take(rows.len() as int) =~= rows);
    } else if rows.len() > keys.len() && keys.len() > 0 {
        assert(keys.take(keys.len() as int) =~= keys);
    } else if keys.len() == rows.len() {
        assert(keys.take(keys.len() as int) =~= keys);
        assert(rows.take(rows.len() as int) =~= rows);
    } else if keys.len() == 0 {
        let n = if keys.len() < rows.len() { keys.len() } else { rows.len() };
        assert(keys.take(n as int).len() == 0);
    } else {
        let n = if keys.len() < rows.len() { keys.len() } else { rows.len() };
        assert(rows.take(n as int).len() == 0);
    }
}

impl TableDataStorage for BasicTable {
    open spec fn initialized(self, next: Self, init_data: TableInitDataModel) -> bool {
        &&& next.model().header == init_data.columns
        &&& next.model().data == upsert_all(self.model().data, init_data.keys, init_data.data)
        &&& next.model().selections == match init_data.selections {
            Some(s) => crate::selections::insert_all(self.model().selections, s),
            None => self.model().selections,
        }
    }

    open spec fn rows_updated(self, next: Self, keys: Seq<i64>, rows: Seq<Seq<ValueModel>>) -> bool {
        &&& next.model().data == upsert_all(self.model().data, keys, rows)
        &&& next.model().header == self.model().header
        &&& next.model().selections == self.model().selections
    }

    open spec fn rows_deleted(self, next: Self, keys: Seq<i64>) -> bool {
        &&& next.model().data == remove_all(self.model().data, keys)
        &&& next.model().header == self.model().header
        &&& next.model().selections == self.model().selections
    }

    open spec fn selection_updated(self, next: Self, selection: SelectionModel) -> bool {
        &&& next.model().selections == if selection_clears(selection) {
            self.model().selections.remove(selection.name)
        } else {
            self.model().selections.insert(selection.name, selection)
        }
        &&& next.model().data == self.model().data
        &&& next.model().header == self.model().header
    }

    open spec fn cleared(self, next: Self) -> bool {
        &&& next.model().data == Map::<i64, Seq<ValueModel>>::empty()
        &&& next.model().selections == Map::<Seq<char>, SelectionModel>::empty()
        &&& next.model().header == self.model().header
    }

    fn on_init_data(&mut self, init_data: TableInitData)
        ensures
            final(self).model().header == init_data.deep_view().columns,
            final(self).model().data == upsert_all(old(self).model().data, init_data.deep_view().keys, init_data.deep_view().data),
            final(self).model().selections == match init_data.deep_view().selections {
                Some(s) => crate::selections::insert_all(old(self).model().selections, s),
                None => old(self).model().selections,
            },
    {
        let TableInitData { columns, keys, data, selections } = init_data;
        self.header = columns;
        proof {
            assert(keys.deep_view() =~= keys@);
        }
        self.store_rows(keys, data);
        match selections {
            Some(s) => self.selections.insert_all(s),
            None => {},
        }
    }

    fn update_data(&mut self, keys: Vec<i64>, updated_data: Vec<Vec<CborValue>>)
        ensures
            final(self).model().data == upsert_all(old(self).model().data, keys@, updated_data.deep_view()),
            final(self).model().header == old(self).model().header,
            final(self).model().selections == old(self).model().selections,
    {
        self.store_rows(keys, updated_data);
    }

    fn delete_data(&mut self, keys: Vec<i64>)
        ensures
            final(self).model().data == remove_all(old(self).model().data, keys@),
            final(self).model().header == old(self).model().header,
            final(self).model().selections == old(self).model().selections,
    {
        let ghost old_data = self.model().data;
        let mut i: usize = 0;
        proof {
            assert(keys@.take(0) =~= Seq::<i64>::empty());
        }
        while i < keys.len()
            invariant
                i <= keys@.len(),
                self.data@.map_values(|v: Vec<CborValue>| v.deep_view()) == remove_all(old_data, keys@.take(i as int)),
                self.header.deep_view() == old(self).header.deep_view(),
                self.selections@ == old(self).selections@,
            decreases keys.len() - i,
        {
            let ghost before = self.data@;
            proof {
                broadcast use vstd::std_specs::btree::group_btree_axioms;
            }
            let k = keys[i];
            let _ = self.data.remove(&k);
            proof {
                broadcast use vstd::std_specs::btree::group_btree_axioms;
                assert(keys@.take(i + 1).drop_last() =~= keys@.take(i as int));
                assert(self.data@ == before.remove(k));
                assert(self.data@.map_values(|v: Vec<CborValue>| v.deep_view()) =~= before.map_values(
                    |v: Vec<CborValue>| v.deep_view(),
                ).remove(k));
            }
            i = i + 1;
        }
        proof {
            assert(keys@.take(keys@.len() as int) =~= keys@);
        }
    }

    fn update_selection(&mut self, selection: Selection)
        ensures
            final(self).model().selections == if selection_clears(selection.deep_view()) {
                old(self).model().selections.remove(selection.name@)
            } else {
                old(self).model().selections.insert(selection.name@, selection.deep_view())
            },
            final(self).model().data == old(self).model().data,
            final(self).model().header == old(self).model().header,
    {
        let is_delete = match &selection.row_ranges {
            Some(v) => v.len() == 0,
            None => match &selection.rows {
                Some(v) => v.len() == 0,
                None => true,
            },
        };
        if is_delete {
            let _ = self.selections.remove(&selection.name);
        } else {
            self.selections.insert(selection);
        }
    }

    fn clear(&mut self)
        ensures
            final(self).model().data == Map::<i64, Seq<ValueModel>>::empty(),
            final(self).model().selections == Map::<Seq<char>, SelectionModel>::empty(),
            final(self).model().header == old(self).model().header,
    {
        self.data.clear();
        self.selections = SelectionMap::new();
        assert(self.model().data =~= Map::<i64, Seq<ValueModel>>::empty());
    }
}

// =============================================================================

/// Rows inserted by the server under consecutive keys, once broadcast and
/// stored by a client that held the same rows, leave the client with the
/// server's rows.
pub proof fn lemma_mirror_insert(data: Map<i64, Seq<ValueModel>>, start: int, rows: Seq<Seq<ValueModel>>)
    requires
        0 <= start,
        start + rows.len() <= i64::MAX + 1,
    ensures
        upsert_all(data, Seq::new(rows.len(), |i: int| (start + i) as i64), rows) == with_rows(data, start, rows),
    decreases rows.len(),
{
    let keys = Seq::new(rows.len(), |i: int| (start + i) as i64);
    if rows.len() > 0 {
        lemma_mirror_insert(data, start, rows.drop_last());
        assert(keys.drop_last() =~= Seq::new(rows.drop_last().len(), |i: int| (start + i) as i64));
    }
}

/// The rows the server reports as updated, once broadcast and stored by a
/// client that held the same rows, leave the client with the server's rows.
pub proof fn lemma_mirror_update(data: Map<i64, Seq<ValueModel>>, keys: Seq<i64>, rows: Seq<Seq<ValueModel>>)
    requires
        keys.len() == rows.len(),
    ensures
        ({
            let u = apply_updates(data, keys, rows);
            upsert_all(data, u.1, u.2) == u.0
        }),
    decreases keys.len(),
{
    if keys.len() > 0 {
        lemma_mirror_update(data, keys.drop_last(), rows.drop_last());
        let prev = apply_updates(data, keys.drop_last(), rows.drop_last());
        assert(prev.1.len() == prev.2.len()) by {
            lemma_updates_lengths(data, keys.drop_last(), rows.drop_last());
        }
        if prev.0.contains_key(keys.last()) {
            assert(prev.1.push(keys.last()).drop_last() =~= prev.1);
            assert(prev.2.push(rows.last()).drop_last() =~= prev.2);
        }
    }
}

proof fn lemma_updates_lengths(data: Map<i64, Seq<ValueModel>>, keys: Seq<i64>, rows: Seq<Seq<ValueModel>>)
    ensures
        apply_updates(data, keys, rows).1.len() == apply_updates(data, keys, rows).2.len(),
    decreases keys.len(),
{
    if keys.len() > 0 && rows.len() > 0 {
        lemma_updates_lengths(data, keys.drop_last(), rows.drop_last());
    }
}

/// The keys the server reports as removed, once broadcast and removed by a
/// client that held the same rows, leave the client with the server's rows.
pub proof fn lemma_mirror_remove(data: Map<i64, Seq<ValueModel>>, keys: Seq<i64>)
    ensures
        remove_all(data, apply_removals(data, keys).1) == apply_removals(data, keys).0,
    decreases keys.len(),
{
    if keys.len() > 0 {
        lemma_mirror_remove(data, keys.drop_last());
        let prev = apply_removals(data, keys.drop_last());
        if prev.0.contains_key(keys.last()) {
            assert(prev.1.push(keys.last()).drop_last() =~= prev.1);
        }
    }
}

/// A client that stores the initial dump of a table holds the table's rows.
pub proof fn lemma_mirror_init(data: Map<i64, Seq<ValueModel>>, keys: Seq<i64>, rows: Seq<Seq<ValueModel>>)
    requires
        crate::server_table::is_ordered_dump(data, keys, rows),
    ensures
        upsert_all(Map::empty(), keys, rows) == data,
{
    lemma_dump_prefix(data, keys, rows, keys.len() as int);
    assert(keys.take(keys.len() as int) =~= keys);
    assert(rows.take(rows.len() as int) =~= rows);
    assert(upsert_all(Map::empty(), keys, rows) =~= data);
}

proof fn lemma_dump_prefix(data: Map<i64, Seq<ValueModel>>, keys: Seq<i64>, rows: Seq<Seq<ValueModel>>, n: int)
    requires
        crate::server_table::is_ordered_dump(data, keys, rows),
        0 <= n <= keys.len(),
    ensures
        forall|k: i64| #[trigger] upsert_all(Map::empty(), keys.take(n), rows.take(n)).contains_key(k) <==> keys.take(n).contains(k),
        forall|i: int| 0 <= i < n ==> upsert_all(Map::empty(), keys.take(n), rows.take(n))[#[trigger] keys[i]] == rows[i],
    decreases n,
{
    if n > 0 {
        lemma_dump_prefix(data, keys, rows, n - 1);
        assert(keys.take(n).drop_last() =~= keys.take(n - 1));
        assert(rows.take(n).drop_last() =~= rows.take(n - 1));
        let prev = upsert_all(Map::empty(), keys.take(n - 1), rows.take(n - 1));
        let m = upsert_all(Map::empty(), keys.take(n), rows.take(n));
        assert(keys.take(n).last() == keys[n - 1]);
        assert(rows.take(n).last() == rows[n - 1]);
        assert(m == prev.insert(keys[n - 1], rows[n - 1]));
        assert forall|k: i64| #[trigger] m.contains_key(k) <==> keys.take(n).contains(k) by {
            if m.contains_key(k) {
                if k == keys[n - 1] {
                    assert(keys.take(n)[n - 1] == k);
                } else {
                    assert(prev.contains_key(k));
                    assert(keys.take(n - 1).contains(k));
                    let j = choose|j: int| 0 <= j < n - 1 && #[trigger] keys.take(n - 1)[j] == k;
                    assert(keys.take(n)[j] == k);
                }
            }
            if keys.take(n).contains(k) {
                let j = choose|j: int| 0 <= j < n && #[trigger] keys.take(n)[j] == k;
                if j < n - 1 {
                    assert(keys.take(n - 1)[j] == k);
                    assert(prev.contains_key(k));
                }
            }
        }
        assert forall|i: int| 0 <= i < n implies m[#[trigger] keys[i]] == rows[i] by {
            if i < n - 1 {
                assert(keys[i] < keys[n - 1]);
                assert(keys.take(n - 1)[i] == keys[i]);
                assert(prev.contains_key(keys[i]));
            }
        }
    } else {
        assert(keys.take(0) =~= Seq::<i64>::empty());
        assert(rows.take(0) =~= Seq::<Seq<ValueModel>>::empty());
    }
}

} // verus!
