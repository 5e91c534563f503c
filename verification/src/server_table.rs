//! Server side tables: the interface a table implements, and a basic table.
use vstd::prelude::*;
use std::collections::BTreeMap;
use vstd::std_specs::iter::IteratorSpec;
use vstd::std_specs::cmp::OrdSpec;
use crate::value::{CborValue, ValueModel};
use crate::table::{Selection, SelectionModel, TableColumnInfo, TableColumnInfoModel, TableInitData, TableInitDataModel};
use crate::selections::SelectionMap;

verus! {

/// The keys and rows a table call gives back, as values.
pub open spec fn rows_outcome(r: Option<(Vec<i64>, Vec<Vec<CborValue>>)>) -> Option<(Seq<i64>, Seq<Seq<ValueModel>>)> {
    match r {
        Some((keys, rows)) => Some((keys@, rows.deep_view())),
        None => None,
    }
}

/// The keys a table call gives back, as values.
pub open spec fn keys_outcome(r: Option<Vec<i64>>) -> Option<Seq<i64>> {
    match r {
        Some(keys) => Some(keys@),
        None => None,
    }
}

/// The model of an optional value.
pub open spec fn deep_outcome<T: DeepView>(r: Option<T>) -> Option<T::V> {
    match r {
        Some(x) => Some(x.deep_view()),
        None => None,
    }
}

/// Interface for interacting with a table.
///
/// Each call that changes the table is described by a relation between the
/// table before and after it and what the call gave back, which each kind of
/// table states for itself.
pub trait TableTrait: Sized {
    /// Whether inserting `rows` more rows keeps the table within its key space.
    spec fn insert_within_bounds(&self, rows: nat) -> bool;

    /// `next` is this table after a request to insert rows, which gave `out`.
    spec fn inserted(self, next: Self, rows: Seq<Seq<ValueModel>>, out: Option<(Seq<i64>, Seq<Seq<ValueModel>>)>) -> bool;

    /// `next` is this table after a request to update rows, which gave `out`.
    spec fn rows_changed(
        self,
        next: Self,
        keys: Seq<i64>,
        rows: Seq<Seq<ValueModel>>,
        out: Option<(Seq<i64>, Seq<Seq<ValueModel>>)>,
    ) -> bool;

    /// `next` is this table after a request to remove rows, which gave `out`.
    spec fn rows_removed(self, next: Self, keys: Seq<i64>, out: Option<Seq<i64>>) -> bool;

    /// `next` is this table after a request to change a selection, which gave `out`.
    spec fn selection_changed(self, next: Self, selection: SelectionModel, out: Option<SelectionModel>) -> bool;

    /// `next` is this table after a request to clear it, which gave `out`.
    spec fn cleared_to(self, next: Self, out: Option<TableInitDataModel>) -> bool;

    /// Whether inserting `rows` more rows keeps the table within its key space.
    fn can_insert(&self, rows: usize) -> (r: bool)
        ensures
            r == self.insert_within_bounds(rows as nat),
    ;

    /// Called when a client needs initial data
    fn get_init_data(&self) -> TableInitData;

    /// Called when a client is asking to install data.
    ///
    /// This function should return None if the insert should fail. Otherwise, it should return keys for the newly inserted rows along with the data that was inserted.
    fn insert_data(&mut self, new_data: Vec<Vec<CborValue>>) -> (r: Option<(Vec<i64>, Vec<Vec<CborValue>>)>)
        requires
            old(self).insert_within_bounds(new_data@.len()),
        ensures
            old(self).inserted(*final(self), new_data.deep_view(), rows_outcome(r)),
    ;

    /// Called when a client is asking to update data.
    ///
    /// This function should return None if the update should fail. Otherwise, it should return keys for the updated rows along with the corresponding data that was changed.
    fn update_data(&mut self, keys: Vec<i64>, updated_data: Vec<Vec<CborValue>>) -> (r: Option<(Vec<i64>, Vec<Vec<CborValue>>)>)
        ensures
            old(self).rows_changed(*final(self), keys@, updated_data.deep_view(), rows_outcome(r)),
    ;

    /// Called when a client is requesting to delete data.
    ///
    /// Should return None if the request should fail. Otherwise the function should return keys that should actually be deleted.
    fn delete_data(&mut self, keys: Vec<i64>) -> (r: Option<Vec<i64>>)
        ensures
            old(self).rows_removed(*final(self), keys@, keys_outcome(r)),
    ;

    /// Called when a client is requesting to update a Selection
    ///
    /// Return None if the request should fail. Otherwise return the actual update to the Selection.
    fn update_selection(&mut self, selection: Selection) -> (r: Option<Selection>)
        ensures
            old(self).selection_changed(*final(self), selection.deep_view(), deep_outcome(r)),
    ;

    /// Called when a client is requesting to clear the table
    ///
    /// Return None if the request should fail. Otherwise return the new 'blank' state.
    fn clear(&mut self) -> (r: Option<TableInitData>)
        ensures
            old(self).cleared_to(*final(self), deep_outcome(r)),
    ;
}

// =============================================================================

/// The rows of `rows` that have `width` cells, in order.
pub open spec fn accepted_rows(rows: Seq<Seq<ValueModel>>, width: nat) -> Seq<Seq<ValueModel>>
    decreases rows.len(),
{
    if rows.len() == 0 {
        Seq::empty()
    } else {
        let rest = accepted_rows(rows.drop_last(), width);
        if rows.last().len() == width {
            rest.push(rows.last())
        } else {
            rest
        }
    }
}

/// `data` with `rows` stored under consecutive keys from `start`.
pub open spec fn with_rows(data: Map<i64, Seq<ValueModel>>, start: int, rows: Seq<Seq<ValueModel>>) -> Map<
    i64,
    Seq<ValueModel>,
>
    decreases rows.len(),
{
    if rows.len() == 0 {
        data
    } else {
        with_rows(data, start, rows.drop_last()).insert(
            (start + rows.len() - 1) as i64,
            rows.last(),
        )
    }
}

/// Applying updates in order: a row replaces the row under its key when that key is present.
/// Gives the new rows and the keys and rows that were applied.
pub open spec fn apply_updates(
    data: Map<i64, Seq<ValueModel>>,
    keys: Seq<i64>,
    rows: Seq<Seq<ValueModel>>,
) -> (Map<i64, Seq<ValueModel>>, Seq<i64>, Seq<Seq<ValueModel>>)
    decreases keys.len(),
{
    if keys.len() == 0 || rows.len() == 0 {
        (data, Seq::empty(), Seq::empty())
    } else {
        let prev = apply_updates(data, keys.drop_last(), rows.drop_last());
        let k = keys.last();
        if prev.0.contains_key(k) {
            (prev.0.insert(k, rows.last()), prev.1.push(k), prev.2.push(rows.last()))
        } else {
            prev
        }
    }
}

/// Removing keys in order; gives the new rows and the keys that were present.
pub open spec fn apply_removals(data: Map<i64, Seq<ValueModel>>, keys: Seq<i64>) -> (
    Map<i64, Seq<ValueModel>>,
    Seq<i64>,
)
    decreases keys.len(),
{
    if keys.len() == 0 {
        (data, Seq::empty())
    } else {
        let prev = apply_removals(data, keys.drop_last());
        let k = keys.last();
        if prev.0.contains_key(k) {
            (prev.0.remove(k), prev.1.push(k))
        } else {
            prev
        }
    }
}

/// The keys of a map in increasing order, with the rows stored under them.
pub open spec fn is_ordered_dump(
    m: Map<i64, Seq<ValueModel>>,
    keys: Seq<i64>,
    rows: Seq<Seq<ValueModel>>,
) -> bool {
    &&& keys.len() == rows.len()
    &&& forall|i: int, j: int| 0 <= i < j < keys.len() ==> keys[i] < keys[j]
    &&& forall|k: i64| m.contains_key(k) <==> keys.contains(k)
    &&& forall|i: int| 0 <= i < keys.len() ==> rows[i] == m[#[trigger] keys[i]]
}

/// The model of a [`BasicTable`].
pub struct BasicTableModel {
    pub header: Seq<TableColumnInfoModel>,
    pub data: Map<i64, Seq<ValueModel>>,
    pub selections: Map<Seq<char>, SelectionModel>,
    pub counter: i64,
}

/// An example table to be used to present information to clients. This can be used directly, or used as a guide to create your own
#[derive(Debug)]
pub struct BasicTable {
    header: Vec<TableColumnInfo>,
    data: BTreeMap<i64, Vec<CborValue>>,
    selections: SelectionMap,
    counter: i64,
}

pub(crate) fn clone_row(v: &Vec<CborValue>) -> (r: Vec<CborValue>)
    ensures
        r.deep_view() == v.deep_view(),
{
    let mut out: Vec<CborValue> = Vec::new();
    let mut i: usize = 0;
    while i < v.len()
        invariant
            i <= v.len(),
            out.len() == i,
            forall|j: int| 0 <= j < i ==> (#[trigger] out@[j])@ == v@[j]@,
        decreases v.len() - i,
    {
        out.push(v[i].clone());
        i = i + 1;
    }
    assert(out.deep_view() =~= v.deep_view());
    out
}

impl BasicTable {
    #[verifier::type_invariant]
    spec fn inv(self) -> bool {
        &&& 0 <= self.counter
        &&& forall|k: i64| #[trigger] self.data@.contains_key(k) ==> 0 <= k < self.counter
    }

    /// The model of this table.
    pub closed spec fn model(&self) -> BasicTableModel {
        BasicTableModel {
            header: self.header.deep_view(),
            data: self.data@.map_values(|v: Vec<CborValue>| v.deep_view()),
            selections: self.selections@,
            counter: self.counter,
        }
    }

    /// Create a new table
    ///
    /// The column count in the header and the initial data should match...
    pub fn new(header: Vec<TableColumnInfo>, init_data: Vec<Vec<CborValue>>) -> (r: Self)
        requires
            init_data@.len() <= i64::MAX,
        ensures
            r.model().header == header.deep_view(),
            r.model().data == with_rows(
                Map::empty(),
                0,
                accepted_rows(init_data.deep_view(), header@.len()),
            ),
            r.model().counter == accepted_rows(init_data.deep_view(), header@.len()).len(),
            r.model().selections == Map::<Seq<char>, SelectionModel>::empty(),
    {
        let mut ret = Self { header, data: BTreeMap::new(), selections: SelectionMap::new(), counter: 0 };
        assert(ret.model().data =~= Map::<i64, Seq<ValueModel>>::empty());
        let _ = ret.insert_data(init_data);
        ret
    }
}


proof fn lemma_with_rows_keys(data: Map<i64, Seq<ValueModel>>, start: int, rows: Seq<Seq<ValueModel>>)
    requires
        0 <= start,
        start + rows.len() <= i64::MAX + 1,
    ensures
        forall|k: i64| #[trigger] with_rows(data, start, rows).contains_key(k) <==> (data.contains_key(k) || start <= k < start + rows.len()),
        forall|k: i64| #![trigger with_rows(data, start, rows)[k]] start <= k < start + rows.len() ==> with_rows(data, start, rows)[k] == rows[k - start],
        forall|k: i64| #![trigger with_rows(data, start, rows)[k]] data.contains_key(k) && !(start <= k < start + rows.len()) ==> with_rows(data, start, rows)[k] == data[k],
    decreases rows.len(),
{
    if rows.len() > 0 {
        let p = rows.drop_last();
        lemma_with_rows_keys(data, start, p);
        let last = (start + rows.len() - 1) as i64;
        assert(last as int == start + rows.len() - 1);
        assert(with_rows(data, start, rows) == with_rows(data, start, p).insert(last, rows.last()));
        assert forall|k: i64| #![trigger with_rows(data, start, rows)[k]] start <= k < start + rows.len() implies with_rows(data, start, rows)[k] == rows[k - start] by {
            if k != last {
                assert(rows[k - start] == p[k - start]);
            }
        }
    }
}

proof fn lemma_increasing_keys(s: Seq<(&i64, &Vec<CborValue>)>)
    requires
        vstd::std_specs::btree::increasing_seq(s.map_values(|kv: (&i64, &Vec<CborValue>)| *kv.0)),
    ensures
        forall|a: int, b: int| 0 <= a < b < s.len() ==> *s[a].0 < *s[b].0,
{
    broadcast use vstd::std_specs::btree::axiom_increasing_seq_meaning;
    broadcast use vstd::laws_cmp::group_laws_cmp;
    let ks = s.map_values(|kv: (&i64, &Vec<CborValue>)| *kv.0);
    assert(vstd::laws_cmp::obeys_cmp::<i64>());
    assert forall|a: int, b: int| 0 <= a < b < s.len() implies *s[a].0 < *s[b].0 by {
        assert(ks[a] == *s[a].0);
        assert(ks[b] == *s[b].0);
        assert(ks[a].cmp_spec(&ks[b]) is Less);
    }
}

/// Updating rows never adds or removes a key.
pub(crate) proof fn lemma_apply_updates_dom(data: Map<i64, Seq<ValueModel>>, keys: Seq<i64>, rows: Seq<Seq<ValueModel>>)
    ensures
        apply_updates(data, keys, rows).0.dom() == data.dom(),
    decreases keys.len(),
{
    if keys.len() > 0 && rows.len() > 0 {
        lemma_apply_updates_dom(data, keys.drop_last(), rows.drop_last());
        let prev = apply_updates(data, keys.drop_last(), rows.drop_last());
        if prev.0.contains_key(keys.last()) {
            assert(prev.0.insert(keys.last(), rows.last()).dom() =~= prev.0.dom());
        }
    }
}

/// After a table is cleared, the next rows inserted get keys from 0 on, and
/// they are all the table holds.
pub proof fn lemma_clear_restarts_keys(
    t: BasicTable,
    cleared: BasicTable,
    next: BasicTable,
    blank: Option<TableInitDataModel>,
    rows: Seq<Seq<ValueModel>>,
    out: Option<(Seq<i64>, Seq<Seq<ValueModel>>)>,
)
    requires
        t.cleared_to(cleared, blank),
        cleared.inserted(next, rows, out),
    ensures
        out is Some <==> accepted_rows(rows, t.model().header.len()).len() > 0,
        out matches Some((keys, stored)) ==> {
            &&& stored == accepted_rows(rows, t.model().header.len())
            &&& keys == Seq::new(stored.len(), |i: int| i as i64)
            &&& next.model().data == with_rows(Map::empty(), 0, stored)
        },
{
    if let Some((keys, stored)) = out {
        assert(keys =~= Seq::new(stored.len(), |i: int| i as i64));
    }
}

impl TableTrait for BasicTable {
    open spec fn insert_within_bounds(&self, rows: nat) -> bool {
        self.model().counter + rows <= i64::MAX
    }

    /// Rows of the header's width get consecutive new keys; a request with
    /// no such row fails and changes nothing.
    open spec fn inserted(self, next: Self, rows: Seq<Seq<ValueModel>>, out: Option<(Seq<i64>, Seq<Seq<ValueModel>>)>) -> bool {
        let acc = accepted_rows(rows, self.model().header.len());
        match out {
            None => acc.len() == 0 && next.model() == self.model(),
            Some((keys, stored)) => {
                &&& acc.len() > 0
                &&& stored == acc
                &&& keys == Seq::new(acc.len(), |i: int| (self.model().counter + i) as i64)
                &&& next.model().data == with_rows(self.model().data, self.model().counter as int, acc)
                &&& next.model().counter == self.model().counter + acc.len()
                &&& next.model().header == self.model().header
                &&& next.model().selections == self.model().selections
            },
        }
    }

    /// Rows under keys the table holds are replaced; keys and rows of
    /// different counts fail and change nothing.
    open spec fn rows_changed(
        self,
        next: Self,
        keys: Seq<i64>,
        rows: Seq<Seq<ValueModel>>,
        out: Option<(Seq<i64>, Seq<Seq<ValueModel>>)>,
    ) -> bool {
        if keys.len() != rows.len() {
            out is None && next.model() == self.model()
        } else {
            let u = apply_updates(self.model().data, keys, rows);
            &&& out == Some((u.1, u.2))
            &&& next.model().data == u.0
            &&& next.model().counter == self.model().counter
            &&& next.model().header == self.model().header
            &&& next.model().selections == self.model().selections
        }
    }

    /// The keys the table holds are removed, and given back.
    open spec fn rows_removed(self, next: Self, keys: Seq<i64>, out: Option<Seq<i64>>) -> bool {
        let u = apply_removals(self.model().data, keys);
        &&& out == Some(u.1)
        &&& next.model().data == u.0
        &&& next.model().counter == self.model().counter
        &&& next.model().header == self.model().header
        &&& next.model().selections == self.model().selections
    }

    /// The selection is stored under its name, and given back.
    open spec fn selection_changed(self, next: Self, selection: SelectionModel, out: Option<SelectionModel>) -> bool {
        &&& out == Some(selection)
        &&& next.model().selections == self.model().selections.insert(selection.name, selection)
        &&& next.model().data == self.model().data
        &&& next.model().counter == self.model().counter
        &&& next.model().header == self.model().header
    }

    /// Rows, selections and keys start over; the empty table is given back.
    open spec fn cleared_to(self, next: Self, out: Option<TableInitDataModel>) -> bool {
        &&& next.model().data == Map::<i64, Seq<ValueModel>>::empty()
        &&& next.model().selections == Map::<Seq<char>, SelectionModel>::empty()
        &&& next.model().counter == 0
        &&& next.model().header == self.model().header
        &&& out is Some
        &&& out->Some_0.columns == self.model().header
        &&& out->Some_0.keys.len() == 0
        &&& out->Some_0.data.len() == 0
        &&& out->Some_0.selections is None
    }

    fn can_insert(&self, rows: usize) -> (r: bool) {
        proof {
            use_type_invariant(self);
        }
        if rows as u128 > 0x7fff_ffff_ffff_ffffu128 {
            false
        } else {
            self.counter <= i64::MAX - rows as i64
        }
    }

    fn get_init_data(&self) -> (r: TableInitData)
        ensures
            r.deep_view().columns == self.model().header,
            is_ordered_dump(self.model().data, r.deep_view().keys, r.deep_view().data),
            r.deep_view().selections is None,
    {
        let mut keys: Vec<i64> = Vec::new();
        let mut data: Vec<Vec<CborValue>> = Vec::new();
        let ghost m = self.data@;
        let iter = self.data.iter();
        proof {
            lemma_increasing_keys(iter.remaining());
        }
        for kv in it: iter
            invariant
                m == self.data@,
                keys.len() == it.index(),
                data.len() == it.index(),
                forall|j: int| 0 <= j < it.index() ==> keys@[j] == *(#[trigger] it.seq()[j]).0,
                forall|j: int| 0 <= j < it.index() ==> (#[trigger] data@[j]).deep_view() == (*it.seq()[j].1).deep_view(),
                it.seq().len() == m.len(),
                forall|j: int| 0 <= j < it.seq().len() ==> m.contains_key(*(#[trigger] it.seq()[j]).0) && m[*it.seq()[j].0] == *it.seq()[j].1,
                forall|k: i64| #[trigger] m.contains_key(k) ==> exists|j: int| 0 <= j < it.seq().len() && *it.seq()[j].0 == k,
                forall|a: int, b: int| 0 <= a < b < it.seq().len() ==> *it.seq()[a].0 < *it.seq()[b].0,
                it.index() == it.seq().len() ==> is_ordered_dump(m.map_values(|v: Vec<CborValue>| v.deep_view()), keys@, data.deep_view()),
        {
            keys.push(*kv.0);
            data.push(clone_row(kv.1));
            proof {
                let mm = m.map_values(|v: Vec<CborValue>| v.deep_view());
                assert forall|a: int, b: int| 0 <= a < b < keys@.len() implies keys@[a] < keys@[b] by {
                    assert(keys@[a] == *it.seq()[a].0);
                    assert(keys@[b] == *it.seq()[b].0);
                }
                assert forall|i: int| 0 <= i < keys@.len() implies data.deep_view()[i] == mm[#[trigger] keys@[i]] by {
                    assert(keys@[i] == *it.seq()[i].0);
                    assert(m.contains_key(*it.seq()[i].0));
                    assert(data@[i].deep_view() == (*it.seq()[i].1).deep_view());
                }
                assert forall|k: i64| keys@.contains(k) implies mm.contains_key(k) by {
                    let j = choose|j: int| 0 <= j < keys@.len() && keys@[j] == k;
                    assert(keys@[j] == *it.seq()[j].0);
                    assert(m.contains_key(*it.seq()[j].0));
                }
                assert(it.index() + 1 == it.seq().len() ==> forall|k: i64| mm.contains_key(k) ==> keys@.contains(k)) by {
                    if it.index() + 1 == it.seq().len() {
                        assert forall|k: i64| mm.contains_key(k) implies keys@.contains(k) by {
                            assert(m.contains_key(k));
                            let j = choose|j: int| 0 <= j < it.seq().len() && *it.seq()[j].0 == k;
                            assert(keys@[j] == *it.seq()[j].0);
                        }
                    }
                }
            }
        }
        assert(self.model().data =~= m.map_values(|v: Vec<CborValue>| v.deep_view()));
        assert(keys.deep_view() =~= keys@);
        let mut columns: Vec<TableColumnInfo> = Vec::new();
        let mut i: usize = 0;
        while i < self.header.len()
            invariant
                i <= self.header.len(),
                columns.len() == i,
                forall|j: int| 0 <= j < i ==> (#[trigger] columns@[j]).deep_view() == self.header@[j].deep_view(),
            decreases self.header.len() - i,
        {
            columns.push(self.header[i].clone());
            i = i + 1;
        }
        assert(columns.deep_view() =~= self.header.deep_view());
        let r = TableInitData { columns, keys, data, selections: None };
        r
    }

    fn insert_data(&mut self, new_data: Vec<Vec<CborValue>>) -> (r: Option<(Vec<i64>, Vec<Vec<CborValue>>)>)
        ensures
            ({
                let acc = accepted_rows(new_data.deep_view(), old(self).model().header.len());
                match r {
                    None => acc.len() == 0 && final(self).model() == old(self).model(),
                    Some((keys, rows)) => {
                        &&& acc.len() > 0
                        &&& rows.deep_view() == acc
                        &&& keys@ == Seq::new(acc.len(), |i: int| (old(self).model().counter + i) as i64)
                        &&& final(self).model().data == with_rows(old(self).model().data, old(self).model().counter as int, acc)
                        &&& final(self).model().counter == old(self).model().counter + acc.len()
                        &&& final(self).model().header == old(self).model().header
                        &&& final(self).model().selections == old(self).model().selections
                    },
                }
            }),
    {
        proof {
            use_type_invariant(&*self);
        }
        let ghost acc_all = accepted_rows(new_data.deep_view(), self.header@.len());
        let mut fixed_data: Vec<Vec<CborValue>> = Vec::new();
        let mut new_keys: Vec<i64> = Vec::new();
        let mut counter = self.counter;
        let mut i: usize = 0;
        assert(new_data.deep_view().take(0) =~= Seq::<Seq<ValueModel>>::empty());
        while i < new_data.len()
            invariant
                i <= new_data.len(),
                self.counter + new_data@.len() <= i64::MAX,
                fixed_data.deep_view() == accepted_rows(new_data.deep_view().take(i as int), self.header@.len()),
                counter == self.counter + fixed_data@.len(),
                new_keys@ == Seq::new(fixed_data@.len(), |j: int| (self.counter + j) as i64),
                accepted_rows(new_data.deep_view().take(i as int), self.header@.len()).len() <= i,
            decreases new_data.len() - i,
        {
            proof {
                assert(new_data.deep_view().take(i + 1).drop_last() =~= new_data.deep_view().take(i as int));
            }
            if new_data[i].len() == self.header.len() {
                let row = clone_row(&new_data[i]);
                let ghost before = fixed_data.deep_view();
                fixed_data.push(row);
                assert(fixed_data.deep_view() =~= before.push(new_data@[i as int].deep_view()));
                new_keys.push(counter);
                assert(new_keys@ =~= Seq::new(fixed_data@.len(), |j: int| (self.counter + j) as i64));
                counter = counter + 1;
            }
            i = i + 1;
        }
        assert(new_data.deep_view().take(new_data.len() as int) =~= new_data.deep_view());
        if new_keys.len() == 0 {
            return None;
        }
        let ghost old_model = self.model();
        let ghost start = self.counter as int;
        let mut d: BTreeMap<i64, Vec<CborValue>> = BTreeMap::new();
        std::mem::swap(&mut d, &mut self.data);
        let mut j: usize = 0;
        assert(acc_all.take(0) =~= Seq::<Seq<ValueModel>>::empty());
        while j < new_keys.len()
            invariant
                j <= new_keys.len(),
                new_keys.len() == fixed_data.len(),
                fixed_data.deep_view() == acc_all,
                new_keys@ == Seq::new(fixed_data@.len(), |k: int| (start + k) as i64),
                d@.map_values(|v: Vec<CborValue>| v.deep_view()) == with_rows(old_model.data, start, acc_all.take(j as int)),
            decreases new_keys.len() - j,
        {
            let ghost before = d@;
            d.insert(new_keys[j], clone_row(&fixed_data[j]));
            proof {
                assert(acc_all.take(j + 1).drop_last() =~= acc_all.take(j as int));
                assert(d@.map_values(|v: Vec<CborValue>| v.deep_view()) =~= with_rows(old_model.data, start, acc_all.take(j as int)).insert((start + j) as i64, acc_all[j as int]));
            }
            j = j + 1;
        }
        assert(acc_all.take(new_keys.len() as int) =~= acc_all);
        proof {
            lemma_with_rows_keys(old_model.data, start, acc_all);
        }
        self.counter = counter;
        assert forall|k: i64| #[trigger] d@.contains_key(k) implies 0 <= k < counter by {
            assert(d@.map_values(|v: Vec<CborValue>| v.deep_view()).contains_key(k));
            if old_model.data.contains_key(k) {
                assert(self.data@.contains_key(k) || true);
            }
        }
        self.data = d;
        Some((new_keys, fixed_data))
    }

    fn update_data(&mut self, keys: Vec<i64>, updated_data: Vec<Vec<CborValue>>) -> (r: Option<(Vec<i64>, Vec<Vec<CborValue>>)>)
        ensures
            keys@.len() != updated_data@.len() ==> r is None && final(self).model() == old(self).model(),
            keys@.len() == updated_data@.len() ==> ({
                let u = apply_updates(old(self).model().data, keys@, updated_data.deep_view());
                match r {
                    Some((out_keys, out_rows)) => {
                        &&& out_keys@ == u.1
                        &&& out_rows.deep_view() == u.2
                        &&& final(self).model().data == u.0
                        &&& final(self).model().counter == old(self).model().counter
                        &&& final(self).model().header == old(self).model().header
                        &&& final(self).model().selections == old(self).model().selections
                    },
                    None => false,
                }
            }),
    {
        proof {
            use_type_invariant(&*self);
        }
        if keys.len() != updated_data.len() {
            return None;
        }
        let ghost old_data = self.model().data;
        let ghost rows_m = updated_data.deep_view();
        let mut d: BTreeMap<i64, Vec<CborValue>> = BTreeMap::new();
        std::mem::swap(&mut d, &mut self.data);
        let mut out_keys: Vec<i64> = Vec::new();
        let mut out_data: Vec<Vec<CborValue>> = Vec::new();
        let mut i: usize = 0;
        proof {
            broadcast use vstd::std_specs::btree::group_btree_axioms;
            assert(keys@.take(0) =~= Seq::<i64>::empty());
            assert(rows_m.take(0) =~= Seq::<Seq<ValueModel>>::empty());
            assert(d@.map_values(|v: Vec<CborValue>| v.deep_view()) =~= old_data);
        }
        while i < keys.len()
            invariant
                i <= keys.len(),
                keys@.len() == updated_data@.len(),
                rows_m == updated_data.deep_view(),
                d@.map_values(|v: Vec<CborValue>| v.deep_view()) == apply_updates(old_data, keys@.take(i as int), rows_m.take(i as int)).0,
                out_keys@ == apply_updates(old_data, keys@.take(i as int), rows_m.take(i as int)).1,
                out_data.deep_view() == apply_updates(old_data, keys@.take(i as int), rows_m.take(i as int)).2,
            decreases keys.len() - i,
        {
            let ghost prev = apply_updates(old_data, keys@.take(i as int), rows_m.take(i as int));
            proof {
                broadcast use vstd::std_specs::btree::group_btree_axioms;
                assert(keys@.take(i + 1).drop_last() =~= keys@.take(i as int));
                assert(rows_m.take(i + 1).drop_last() =~= rows_m.take(i as int));
            }
            let k = keys[i];
            let present = d.contains_key(&k);
            proof {
                assert(present == d@.contains_key(k));
                assert(d@.contains_key(k) == prev.0.contains_key(k));
            }
            if present {
                d.insert(k, clone_row(&updated_data[i]));
                out_keys.push(k);
                let ghost before = out_data.deep_view();
                out_data.push(clone_row(&updated_data[i]));
                proof {
                    assert(out_data.deep_view() =~= before.push(rows_m[i as int]));
                    assert(d@.map_values(|v: Vec<CborValue>| v.deep_view()) =~= prev.0.insert(k, rows_m[i as int]));
                }
            }
            i = i + 1;
        }
        proof {
            assert(keys@.take(keys@.len() as int) =~= keys@);
            assert(rows_m.take(rows_m.len() as int) =~= rows_m);
            lemma_apply_updates_dom(old_data, keys@, rows_m);
            assert forall|k: i64| #[trigger] d@.contains_key(k) implies 0 <= k < self.counter by {
                assert(d@.map_values(|v: Vec<CborValue>| v.deep_view()).dom().contains(k));
                assert(old_data.dom().contains(k));
            }
        }
        self.data = d;
        Some((out_keys, out_data))
    }

    fn delete_data(&mut self, keys: Vec<i64>) -> (r: Option<Vec<i64>>)
        ensures
            ({
                let u = apply_removals(old(self).model().data, keys@);
                match r {
                    Some(removed) => {
                        &&& removed@ == u.1
                        &&& final(self).model().data == u.0
                        &&& final(self).model().counter == old(self).model().counter
                        &&& final(self).model().header == old(self).model().header
                        &&& final(self).model().selections == old(self).model().selections
                    },
                    None => false,
                }
            }),
    {
        proof {
            use_type_invariant(&*self);
        }
        let ghost old_data = self.model().data;
        let mut d: BTreeMap<i64, Vec<CborValue>> = BTreeMap::new();
        std::mem::swap(&mut d, &mut self.data);
        let mut ret: Vec<i64> = Vec::new();
        let mut i: usize = 0;
        proof {
            broadcast use vstd::std_specs::btree::group_btree_axioms;
            assert(keys@.take(0) =~= Seq::<i64>::empty());
            assert(d@.map_values(|v: Vec<CborValue>| v.deep_view()) =~= old_data);
        }
        while i < keys.len()
            invariant
                i <= keys.len(),
                0 <= self.counter,
                forall|k: i64| #[trigger] d@.contains_key(k) ==> 0 <= k < self.counter,
                d@.map_values(|v: Vec<CborValue>| v.deep_view()) == apply_removals(old_data, keys@.take(i as int)).0,
                ret@ == apply_removals(old_data, keys@.take(i as int)).1,
            decreases keys.len() - i,
        {
            let ghost prev = apply_removals(old_data, keys@.take(i as int));
            let ghost before = d@;
            proof {
                broadcast use vstd::std_specs::btree::group_btree_axioms;
                assert(keys@.take(i + 1).drop_last() =~= keys@.take(i as int));
            }
            let k = keys[i];
            let removed = d.remove(&k);
            proof {
                broadcast use vstd::std_specs::btree::group_btree_axioms;
                assert(d@ == before.remove(k));
                assert(before.contains_key(k) == prev.0.contains_key(k));
                assert(d@.map_values(|v: Vec<CborValue>| v.deep_view()) =~= before.map_values(|v: Vec<CborValue>| v.deep_view()).remove(k));
            }
            if removed.is_some() {
                ret.push(k);
            }
            i = i + 1;
        }
        proof {
            assert(keys@.take(keys@.len() as int) =~= keys@);
        }
        self.data = d;
        Some(ret)
    }

    fn update_selection(&mut self, selection: Selection) -> (r: Option<Selection>)
        ensures
            r == Some(selection),
            final(self).model().selections == old(self).model().selections.insert(selection.name@, selection.deep_view()),
            final(self).model().data == old(self).model().data,
            final(self).model().counter == old(self).model().counter,
            final(self).model().header == old(self).model().header,
    {
        proof {
            use_type_invariant(&*self);
        }
        let mut sels = SelectionMap::new();
        std::mem::swap(&mut sels, &mut self.selections);
        sels.insert(selection.clone());
        self.selections = sels;
        Some(selection)
    }

    fn clear(&mut self) -> (r: Option<TableInitData>)
        ensures
            final(self).model().data == Map::<i64, Seq<ValueModel>>::empty(),
            final(self).model().selections == Map::<Seq<char>, SelectionModel>::empty(),
            final(self).model().counter == 0,
            final(self).model().header == old(self).model().header,
            match r {
                Some(init) => {
                    &&& init.deep_view().columns == old(self).model().header
                    &&& init.deep_view().keys.len() == 0
                    &&& init.deep_view().data.len() == 0
                    &&& init.deep_view().selections is None
                },
                None => false,
            },
    {
        proof {
            use_type_invariant(&*self);
        }
        let empty: BTreeMap<i64, Vec<CborValue>> = BTreeMap::new();
        assert(empty@ == Map::<i64, Vec<CborValue>>::empty());
        self.data = empty;
        self.counter = 0;
        self.selections = SelectionMap::new();
        let init = self.get_init_data();
        proof {
            let keys = init.deep_view().keys;
            if keys.len() > 0 {
                assert(keys.contains(keys[0]));
            }
        }
        assert(self.model().data =~= Map::<i64, Seq<ValueModel>>::empty());
        Some(init)
    }
}

} // verus!
