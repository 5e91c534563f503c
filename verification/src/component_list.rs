//! The server's list of live components of one kind, with recycled identifiers.
//!
//! Components are kept in the order in which they were created, and a removal
//! keeps the others in that order, because clients expect parents, which
//! usually come first, to be announced before their children.
use vstd::prelude::*;
use indexmap::IndexMap;
use crate::nooid::{NooID, group_nooid, lemma_nooid_key_injective};
use crate::components::UpdatableWith;

verus! {

broadcast use group_nooid;

#[verifier::external_type_specification]
#[verifier::external_body]
#[verifier::reject_recursive_types(K)]
#[verifier::reject_recursive_types(V)]
#[verifier::reject_recursive_types(S)]
pub struct ExIndexMap<K, V, S>(IndexMap<K, V, S>);

/// The key-value pairs of an index map from identifier keys to slots, in the map's order.
pub uninterp spec fn slot_map_entries(m: IndexMap<u64, u32>) -> Seq<(u64, u32)>;

/// The position of the first pair of `s` whose key is `k`, if any.
pub open spec fn key_position(s: Seq<(u64, u32)>, k: u64) -> Option<int>
    decreases s.len(),
{
    if s.len() == 0 {
        None
    } else {
        match key_position(s.drop_last(), k) {
            Some(i) => Some(i),
            None => if s.last().0 == k {
                Some(s.len() - 1)
            } else {
                None
            },
        }
    }
}

/// What [`key_position`] means.
pub proof fn lemma_key_position(s: Seq<(u64, u32)>, k: u64)
    ensures
        match key_position(s, k) {
            Some(i) => 0 <= i < s.len() && s[i].0 == k && forall|j: int| 0 <= j < i ==> s[j].0 != k,
            None => forall|j: int| 0 <= j < s.len() ==> s[j].0 != k,
        },
    decreases s.len(),
{
    if s.len() > 0 {
        lemma_key_position(s.drop_last(), k);
        assert forall|j: int| 0 <= j < s.len() - 1 implies s.drop_last()[j] == s[j] by {}
    }
}

/// `IndexMap::new`: an empty map.
#[verifier::external_body]
fn slot_map_new() -> (m: IndexMap<u64, u32>)
    ensures
        slot_map_entries(m) == Seq::<(u64, u32)>::empty(),
{
    IndexMap::new()
}

/// `IndexMap::len`: the number of pairs.
#[verifier::external_body]
fn slot_map_len(m: &IndexMap<u64, u32>) -> (r: usize)
    ensures
        r == slot_map_entries(*m).len(),
{
    m.len()
}

/// `IndexMap::get`: the value stored with the key, if the key is present.
#[verifier::external_body]
fn slot_map_get(m: &IndexMap<u64, u32>, k: u64) -> (r: Option<u32>)
    ensures
        r == match key_position(slot_map_entries(*m), k) {
            Some(i) => Some(slot_map_entries(*m)[i].1),
            None => None,
        },
{
    m.get(&k).copied()
}

/// `IndexMap::get_index`: the pair at a position of the order, if the position is in range.
#[verifier::external_body]
fn slot_map_get_index(m: &IndexMap<u64, u32>, i: usize) -> (r: Option<(u64, u32)>)
    ensures
        r == if i < slot_map_entries(*m).len() {
            Some(slot_map_entries(*m)[i as int])
        } else {
            None
        },
{
    m.get_index(i).map(|(k, v)| (*k, *v))
}

/// `IndexMap::insert` of a key that is not present: the pair goes last in the order.
#[verifier::external_body]
fn slot_map_insert(m: &mut IndexMap<u64, u32>, k: u64, v: u32) -> (r: Option<u32>)
    requires
        key_position(slot_map_entries(*old(m)), k) is None,
    ensures
        r is None,
        slot_map_entries(*final(m)) == slot_map_entries(*old(m)).push((k, v)),
{
    m.insert(k, v)
}

/// `IndexMap::shift_remove`: the pair with the key is removed and the pairs
/// after it move down one place, keeping their order; the removed value is
/// returned.
#[verifier::external_body]
fn slot_map_shift_remove(m: &mut IndexMap<u64, u32>, k: u64) -> (r: Option<u32>)
    ensures
        match key_position(slot_map_entries(*old(m)), k) {
            Some(i) => {
                &&& r == Some(slot_map_entries(*old(m))[i].1)
                &&& slot_map_entries(*final(m)) == slot_map_entries(*old(m)).remove(i)
            },
            None => r is None && slot_map_entries(*final(m)) == slot_map_entries(*old(m)),
        },
{
    m.shift_remove(&k)
}

// =============================================================================

/// What a component list holds: the live identifiers in order, the component
/// of each, and the identifiers waiting to be recycled (the last is reused first).
pub struct ComponentListModel<T> {
    pub order: Seq<NooID>,
    pub items: Map<NooID, T>,
    pub free: Seq<NooID>,
}

/// Whether the next new component can get an identifier: a fresh slot must fit
/// in 32 bits, and a recycled slot must have a generation left.
pub open spec fn can_provision<T>(m: ComponentListModel<T>) -> bool {
    if m.free.len() == 0 {
        m.order.len() <= u32::MAX
    } else {
        m.free.last().spec_gen() < u32::MAX
    }
}

/// The identifier the next new component gets: a new slot after the live ones
/// when nothing waits to be recycled, else the next generation of the last freed slot.
pub open spec fn next_id<T>(m: ComponentListModel<T>) -> NooID {
    if m.free.len() == 0 {
        NooID::spec_new(m.order.len() as u32, 0)
    } else {
        NooID::spec_new(m.free.last().spec_slot(), (m.free.last().spec_gen() + 1) as u32)
    }
}

/// The position of an identifier in a sequence of identifiers, if present.
pub open spec fn id_position(s: Seq<NooID>, id: NooID) -> int {
    choose|i: int| 0 <= i < s.len() && s[i] == id
}

/// A list of components. Holds the content, the order in which it is announced,
/// and a list of free ids for recycling.
pub struct ServerComponentList<T> {
    list: IndexMap<u64, u32>,
    components: Vec<Option<T>>,
    generations: Vec<u32>,
    free_list: Vec<NooID>,
}

impl<T> ServerComponentList<T> {
    /// The identifier living in a slot.
    closed spec fn slot_id(&self, slot: u32) -> NooID {
        NooID::spec_new(slot, self.generations@[slot as int])
    }

    /// What the list holds.
    pub closed spec fn model(&self) -> ComponentListModel<T> {
        let e = slot_map_entries(self.list);
        let order = e.map_values(|p: (u64, u32)| self.slot_id(p.1));
        ComponentListModel {
            order,
            items: Map::new(
                |id: NooID| order.contains(id),
                |id: NooID| self.components@[id.spec_slot() as int]->Some_0,
            ),
            free: self.free_list@,
        }
    }

    /// The internal consistency of the list.
    pub closed spec fn wf(&self) -> bool {
        let e = slot_map_entries(self.list);
        let n = self.components@.len();
        &&& self.generations@.len() == n
        &&& e.len() + self.free_list@.len() == n
        &&& forall|i: int, j: int| 0 <= i < j < e.len() ==> e[i].0 != e[j].0
        &&& forall|i: int| #![trigger e[i]] 0 <= i < e.len() ==> {
            &&& e[i].1 < n
            &&& self.components@[e[i].1 as int] is Some
            &&& e[i].0 == self.slot_id(e[i].1).spec_key()
        }
        &&& forall|j: int| #![trigger self.free_list@[j]] 0 <= j < self.free_list@.len() ==> {
            &&& self.free_list@[j].spec_slot() < n
            &&& self.components@[self.free_list@[j].spec_slot() as int] is None
            &&& self.free_list@[j] == self.slot_id(self.free_list@[j].spec_slot())
        }
        &&& forall|a: int, b: int| 0 <= a < b < self.free_list@.len() ==> self.free_list@[a].spec_slot() != self.free_list@[b].spec_slot()
    }

    proof fn lemma_order(&self)
        requires
            self.wf(),
        ensures
            self.model().order.len() == slot_map_entries(self.list).len(),
            forall|i: int| #![trigger self.model().order[i]] 0 <= i < self.model().order.len() ==> {
                &&& self.model().order[i] == self.slot_id(slot_map_entries(self.list)[i].1)
                &&& self.model().order[i].spec_slot() == slot_map_entries(self.list)[i].1
                &&& self.model().order[i].spec_key() == slot_map_entries(self.list)[i].0
            },
            forall|i: int, j: int| 0 <= i < j < self.model().order.len() ==> self.model().order[i] != self.model().order[j],
            forall|i: int, j: int| 0 <= i < j < self.model().order.len() ==> self.model().order[i].spec_slot() != self.model().order[j].spec_slot(),
    {
        broadcast use group_nooid;
        let e = slot_map_entries(self.list);
        let o = self.model().order;
        assert forall|i: int, j: int| 0 <= i < j < o.len() implies o[i] != o[j] && o[i].spec_slot() != o[j].spec_slot() by {
            lemma_nooid_key_injective(o[i], o[j]);
            assert(e[i].0 != e[j].0);
            assert(o[i].spec_key() == e[i].0);
            assert(o[j].spec_key() == e[j].0);
            if o[i].spec_slot() == o[j].spec_slot() {
                assert(o[i] == self.slot_id(e[i].1));
                assert(o[j] == self.slot_id(e[j].1));
            }
        }
    }

    pub(crate) proof fn lemma_ids(&self)
        requires
            self.wf(),
        ensures
            self.model().order.no_duplicates(),
            forall|x: NooID| #[trigger] self.model().items.contains_key(x) <==> self.model().order.contains(x),
            forall|j: int| 0 <= j < self.model().free.len() ==> !self.model().items.contains_key(#[trigger] self.model().free[j]),
            can_provision(self.model()) ==> !self.model().items.contains_key(next_id(self.model())),
    {
        self.lemma_order();
        let m = self.model();
        let e = slot_map_entries(self.list);
        assert forall|j: int| 0 <= j < m.free.len() implies !m.items.contains_key(#[trigger] m.free[j]) by {
            if m.items.contains_key(m.free[j]) {
                let i = choose|i: int| 0 <= i < m.order.len() && m.order[i] == m.free[j];
                assert(self.free_list@[j] == m.free[j]);
                assert(e[i].1 == m.free[j].spec_slot());
            }
        }
        if can_provision(m) && m.items.contains_key(next_id(m)) {
            let i = choose|i: int| 0 <= i < m.order.len() && m.order[i] == next_id(m);
            if m.free.len() == 0 {
                assert(e[i].1 < e.len());
            } else {
                let last = m.free.len() - 1;
                assert(self.free_list@[last] == m.free.last());
                assert(e[i].1 == m.free.last().spec_slot());
            }
        }
    }

    /// An empty list.
    pub fn new() -> (r: Self)
        ensures
            r.wf(),
            r.model().order == Seq::<NooID>::empty(),
            r.model().items == Map::<NooID, T>::empty(),
            r.model().free == Seq::<NooID>::empty(),
    {
        let r = Self { list: slot_map_new(), components: Vec::new(), generations: Vec::new(), free_list: Vec::new() };
        assert(r.model().items =~= Map::<NooID, T>::empty());
        r
    }

    /// Whether the next new component can get an identifier.
    pub fn can_provision(&self) -> (r: bool)
        requires
            self.wf(),
        ensures
            r == can_provision(self.model()),
    {
        proof {
            self.lemma_order();
        }
        let n = self.free_list.len();
        if n == 0 {
            slot_map_len(&self.list) <= 0xffff_ffffusize
        } else {
            self.free_list[n - 1].gen() < u32::MAX
        }
    }

    /// Obtain a new id. Either generates a new ID if there are no free slots. If there are free slots, reuse and bump the generation.
    fn provision_id(&mut self) -> (r: NooID)
        requires
            old(self).wf(),
            can_provision(old(self).model()),
        ensures
            r == next_id(old(self).model()),
            final(self).list == old(self).list,
            final(self).components == old(self).components,
            final(self).generations == old(self).generations,
            old(self).free_list@.len() == 0 ==> final(self).free_list@ == old(self).free_list@,
            old(self).free_list@.len() > 0 ==> final(self).free_list@ == old(self).free_list@.drop_last(),
    {
        proof {
            self.lemma_order();
        }
        if self.free_list.len() == 0 {
            let n = slot_map_len(&self.list);
            return NooID::new_with_slot(n as u32);
        }
        let last = self.free_list.pop().unwrap();
        NooID::next_generation(last)
    }

    /// Store a new component and give it an identifier, which is appended to the order.
    pub fn new_component(&mut self, new_t: T) -> (r: NooID)
        requires
            old(self).wf(),
            can_provision(old(self).model()),
        ensures
            final(self).wf(),
            r == next_id(old(self).model()),
            !old(self).model().items.contains_key(r),
            final(self).model().order == old(self).model().order.push(r),
            final(self).model().items == old(self).model().items.insert(r, new_t),
            old(self).model().free.len() == 0 ==> final(self).model().free == old(self).model().free,
            old(self).model().free.len() > 0 ==> final(self).model().free == old(self).model().free.drop_last(),
    {
        proof {
            broadcast use group_nooid;
            self.lemma_order();
        }
        let ghost old_self = *self;
        let ghost e = slot_map_entries(self.list);
        let fresh_slot = self.free_list.len() == 0;
        let id = self.provision_id();
        let slot = id.slot();
        let key = id.key();
        proof {
            assert forall|i: int| 0 <= i < e.len() implies e[i].0 != key by {
                let o = old_self.slot_id(e[i].1);
                assert(e[i].0 == o.spec_key());
                lemma_nooid_key_injective(o, id);
                if fresh_slot {
                    assert(e[i].1 < e.len());
                } else {
                    let f = old_self.free_list@.last();
                    assert(old_self.free_list@[old_self.free_list@.len() - 1] == f);
                    assert(old_self.components@[f.spec_slot() as int] is None);
                    assert(old_self.components@[e[i].1 as int] is Some);
                }
            }
            lemma_key_position(e, key);
        }
        slot_map_insert(&mut self.list, key, slot);
        if fresh_slot {
            self.components.push(Some(new_t));
            self.generations.push(0);
        } else {
            self.components.set(slot as usize, Some(new_t));
            self.generations.set(slot as usize, id.gen());
        }
        proof {
            let e2 = slot_map_entries(self.list);
            assert(e2 == e.push((key, slot)));
            let old_model = old_self.model();
            let new_model = self.model();
            assert forall|i: int| #![trigger e2[i]] 0 <= i < e2.len() implies {
                &&& e2[i].1 < self.components@.len()
                &&& self.components@[e2[i].1 as int] is Some
                &&& e2[i].0 == self.slot_id(e2[i].1).spec_key()
            } by {
                if i < e.len() {
                    assert(e2[i] == e[i]);
                    assert(e[i].0 != key);
                    if !fresh_slot {
                        assert(e[i].1 != slot) by {
                            let f = old_self.free_list@.last();
                            assert(old_self.free_list@[old_self.free_list@.len() - 1] == f);
                        }
                    }
                }
            }
            assert forall|j: int| #![trigger self.free_list@[j]] 0 <= j < self.free_list@.len() implies {
                &&& self.free_list@[j].spec_slot() < self.components@.len()
                &&& self.components@[self.free_list@[j].spec_slot() as int] is None
                &&& self.free_list@[j] == self.slot_id(self.free_list@[j].spec_slot())
            } by {
                assert(self.free_list@[j] == old_self.free_list@[j]);
                if !fresh_slot {
                    let last = old_self.free_list@.len() - 1;
                    assert(old_self.free_list@[last].spec_slot() == slot);
                    assert(old_self.free_list@[j].spec_slot() != old_self.free_list@[last].spec_slot());
                }
            }
            assert(self.wf());
            assert(new_model.order =~= old_model.order.push(id)) by {
                assert forall|i: int| 0 <= i < e.len() implies self.slot_id(e[i].1) == old_self.slot_id(e[i].1) by {
                    if !fresh_slot {
                        let f = old_self.free_list@.last();
                        assert(old_self.free_list@[old_self.free_list@.len() - 1] == f);
                        assert(old_self.components@[e[i].1 as int] is Some);
                    }
                }
            }
            assert(!old_model.order.contains(id)) by {
                if old_model.order.contains(id) {
                    let i = choose|i: int| 0 <= i < old_model.order.len() && old_model.order[i] == id;
                    old_self.lemma_order();
                    assert(old_model.order[i].spec_key() == e[i].0);
                }
            }
            assert(new_model.items =~= old_model.items.insert(id, new_t)) by {
                assert forall|x: NooID| #[trigger] new_model.items.contains_key(x) implies x == id || (old_model.items.contains_key(x) && new_model.items[x] == old_model.items[x]) by {
                    if x != id {
                        let i = choose|i: int| 0 <= i < new_model.order.len() && new_model.order[i] == x;
                        assert(i < old_model.order.len());
                        assert(old_model.order[i] == x);
                        assert(x.spec_slot() == e[i].1);
                        if !fresh_slot {
                            let f = old_self.free_list@.last();
                            assert(old_self.free_list@[old_self.free_list@.len() - 1] == f);
                            assert(old_self.components@[e[i].1 as int] is Some);
                        }
                    }
                }
                assert(new_model.order[new_model.order.len() - 1] == id);
                assert(new_model.items.contains_key(id));
                assert(id.spec_slot() == slot);
                assert(new_model.items[id] == new_t);
                assert forall|x: NooID| #[trigger] old_model.items.contains_key(x) implies new_model.items.contains_key(x) by {
                    let i = choose|i: int| 0 <= i < old_model.order.len() && old_model.order[i] == x;
                    assert(new_model.order[i] == x);
                }
            }
        }
        id
    }

    /// Inform us that the given ID (slot) is free to be used again.
    /// This returns the component we destroyed.
    pub fn return_id(&mut self, id: NooID) -> (r: Option<T>)
        requires
            old(self).wf(),
            old(self).model().items.contains_key(id),
        ensures
            final(self).wf(),
            r == Some(old(self).model().items[id]),
            final(self).model().items == old(self).model().items.remove(id),
            final(self).model().free == old(self).model().free.push(id),
            final(self).model().order == old(self).model().order.remove(id_position(old(self).model().order, id)),
    {
        proof {
            broadcast use group_nooid;
            self.lemma_order();
        }
        let ghost old_self = *self;
        let ghost old_model = self.model();
        let ghost e = slot_map_entries(self.list);
        let ghost pos = id_position(old_model.order, id);
        let key = id.key();
        let slot = id.slot();
        proof {
            lemma_key_position(e, key);
            assert(old_model.order[pos] == id);
            assert(e[pos].0 == key);
            assert(key_position(e, key) == Some(pos)) by {
                let p = key_position(e, key)->Some_0;
                if p != pos {
                    if p < pos {
                        assert(e[p].0 != e[pos].0);
                    } else {
                        assert(e[pos].0 != e[p].0);
                    }
                }
            }
        }
        slot_map_shift_remove(&mut self.list, key);
        self.free_list.push(id);
        let mut taken: Option<T> = None;
        std::mem::swap(&mut taken, &mut self.components[slot as usize]);
        proof {
            let e2 = slot_map_entries(self.list);
            let new_model = self.model();
            assert(e2 == e.remove(pos));
            assert(e[pos].1 == slot);
            assert forall|i: int| 0 <= i < e.len() && i != pos implies e[i].1 != slot by {
                assert(old_model.order[i].spec_slot() != old_model.order[pos].spec_slot());
            }
            assert forall|i: int| #![trigger e2[i]] 0 <= i < e2.len() implies e2[i] == e[if i < pos { i } else { i + 1 }] by {}
            assert forall|i: int, j: int| 0 <= i < j < e2.len() implies e2[i].0 != e2[j].0 by {
                let ii = if i < pos { i } else { i + 1 };
                let jj = if j < pos { j } else { j + 1 };
                assert(e2[i] == e[ii]);
                assert(e2[j] == e[jj]);
            }
            assert forall|i: int| #![trigger e2[i]] 0 <= i < e2.len() implies {
                &&& e2[i].1 < self.components@.len()
                &&& self.components@[e2[i].1 as int] is Some
                &&& e2[i].0 == self.slot_id(e2[i].1).spec_key()
            } by {
                let ii = if i < pos { i } else { i + 1 };
                assert(e2[i] == e[ii]);
                assert(ii != pos);
            }
            assert forall|j: int| #![trigger self.free_list@[j]] 0 <= j < self.free_list@.len() implies {
                &&& self.free_list@[j].spec_slot() < self.components@.len()
                &&& self.components@[self.free_list@[j].spec_slot() as int] is None
                &&& self.free_list@[j] == self.slot_id(self.free_list@[j].spec_slot())
            } by {
                if j < old_self.free_list@.len() {
                    assert(self.free_list@[j] == old_self.free_list@[j]);
                    assert(old_self.components@[old_self.free_list@[j].spec_slot() as int] is None);
                }
            }
            assert forall|a: int, b: int| 0 <= a < b < self.free_list@.len() implies self.free_list@[a].spec_slot() != self.free_list@[b].spec_slot() by {
                if b == old_self.free_list@.len() {
                    assert(old_self.components@[old_self.free_list@[a].spec_slot() as int] is None);
                    assert(old_self.components@[e[pos].1 as int] is Some);
                }
            }
            assert(self.wf());
            let expected = old_model.order.remove(pos);
            assert(new_model.order =~= expected) by {
                assert forall|i: int| 0 <= i < e2.len() implies new_model.order[i] == expected[i] by {
                    let ii = if i < pos { i } else { i + 1 };
                    assert(e2[i] == e[ii]);
                    assert(ii != pos);
                    assert(expected[i] == old_model.order[ii]);
                    assert(old_model.order[ii] == old_self.slot_id(e[ii].1));
                }
            }
            self.lemma_order();
            assert(new_model.items =~= old_model.items.remove(id)) by {
                assert forall|x: NooID| new_model.items.contains_key(x) <==> old_model.items.remove(id).contains_key(x) by {
                    if new_model.items.contains_key(x) {
                        let i = choose|i: int| 0 <= i < new_model.order.len() && new_model.order[i] == x;
                        assert(new_model.order[i] == expected[i]);
                        let ii = if i < pos { i } else { i + 1 };
                        assert(expected[i] == old_model.order[ii]);
                        assert(old_model.order[ii] == x);
                        assert(ii != pos);
                        assert(old_model.order.contains(x));
                    }
                    if old_model.items.remove(id).contains_key(x) {
                        let i = choose|i: int| 0 <= i < old_model.order.len() && old_model.order[i] == x;
                        assert(i != pos);
                        if i < pos {
                            assert(expected[i] == x);
                            assert(new_model.order[i] == x);
                        } else {
                            assert(expected[i - 1] == x);
                            assert(new_model.order[i - 1] == x);
                        }
                    }
                }
                assert forall|x: NooID| #[trigger] new_model.items.contains_key(x) implies new_model.items[x] == old_model.items[x] by {
                    assert(x != id);
                    let i = choose|i: int| 0 <= i < new_model.order.len() && new_model.order[i] == x;
                    let ii = if i < pos { i } else { i + 1 };
                    assert(new_model.order[i] == expected[i]);
                    assert(expected[i] == old_model.order[ii]);
                    assert(old_model.order[ii] == x);
                    assert(x.spec_slot() == e[ii].1);
                    assert(e[ii].1 != slot);
                }
            }
        }
        taken
    }

    /// Obtain the count of components in this list
    pub fn len(&self) -> (r: usize)
        requires
            self.wf(),
        ensures
            r == self.model().order.len(),
    {
        proof {
            self.lemma_order();
        }
        slot_map_len(&self.list)
    }

    /// Get a reference to a component by ID
    pub fn get_data(&self, id: NooID) -> (r: Option<&T>)
        requires
            self.wf(),
        ensures
            match r {
                Some(x) => self.model().items.contains_key(id) && *x == self.model().items[id],
                None => !self.model().items.contains_key(id),
            },
    {
        proof {
            broadcast use group_nooid;
            self.lemma_order();
        }
        let ghost e = slot_map_entries(self.list);
        let ghost m = self.model();
        let key = id.key();
        proof {
            lemma_key_position(e, key);
        }
        match slot_map_get(&self.list, key) {
            Some(slot) => {
                proof {
                    let p = key_position(e, key)->Some_0;
                    lemma_nooid_key_injective(m.order[p], id);
                    assert(m.order[p] == id);
                }
                self.components[slot as usize].as_ref()
            },
            None => {
                proof {
                    if m.order.contains(id) {
                        let i = choose|i: int| 0 <= i < m.order.len() && m.order[i] == id;
                        assert(e[i].0 == key);
                    }
                }
                None
            },
        }
    }

    /// Put a new value in place of a live component, and hand back the one it
    /// replaces; a value for an identifier that names no live component is dropped.
    pub fn replace_data(&mut self, id: NooID, v: T) -> (r: Option<T>)
        requires
            old(self).wf(),
        ensures
            final(self).wf(),
            final(self).model().order == old(self).model().order,
            final(self).model().free == old(self).model().free,
            match r {
                Some(x) => {
                    &&& old(self).model().items.contains_key(id)
                    &&& x == old(self).model().items[id]
                    &&& final(self).model().items == old(self).model().items.insert(id, v)
                },
                None => !old(self).model().items.contains_key(id) && final(self).model().items == old(self).model().items,
            },
    {
        proof {
            broadcast use group_nooid;
            self.lemma_order();
        }
        let ghost old_self = *self;
        let ghost e = slot_map_entries(self.list);
        let ghost m = self.model();
        let key = id.key();
        proof {
            lemma_key_position(e, key);
        }
        match slot_map_get(&self.list, key) {
            Some(slot) => {
                let ghost p = key_position(e, key)->Some_0;
                proof {
                    lemma_nooid_key_injective(m.order[p], id);
                    assert(m.order[p] == id);
                }
                let mut holder: Option<T> = Some(v);
                std::mem::swap(&mut holder, &mut self.components[slot as usize]);
                proof {
                    assert(self.components@ == old_self.components@.update(slot as int, Some(v)));
                    assert forall|i: int| 0 <= i < e.len() && i != p implies e[i].1 != slot by {
                        assert(m.order[i].spec_slot() != m.order[p].spec_slot());
                    }
                    assert forall|j: int| 0 <= j < self.free_list@.len() implies #[trigger] self.free_list@[j].spec_slot() != slot by {
                        assert(old_self.components@[old_self.free_list@[j].spec_slot() as int] is None);
                    }
                    assert(self.wf());
                    let nm = self.model();
                    assert(nm.order =~= m.order) by {
                        assert forall|i: int| 0 <= i < e.len() implies nm.order[i] == m.order[i] by {
                            assert(self.slot_id(e[i].1) == old_self.slot_id(e[i].1));
                        }
                    }
                    assert(nm.items =~= m.items.insert(id, v)) by {
                        assert forall|x: NooID| #[trigger] nm.items.contains_key(x) implies nm.items[x] == m.items.insert(id, v)[x] by {
                            if x != id {
                                let i = choose|i: int| 0 <= i < m.order.len() && m.order[i] == x;
                                assert(x.spec_slot() == e[i].1);
                                assert(i != p);
                            }
                        }
                    }
                }
                holder
            },
            None => {
                proof {
                    if m.order.contains(id) {
                        let i = choose|i: int| 0 <= i < m.order.len() && m.order[i] == id;
                        assert(e[i].0 == key);
                    }
                }
                None
            },
        }
    }

    /// Apply an update to a live component; an update for an identifier that
    /// names no live component changes nothing.
    pub fn update_data(&mut self, id: NooID, s: T::Substate) -> (r: bool)
        where T: UpdatableWith
        requires
            old(self).wf(),
        ensures
            final(self).wf(),
            final(self).model().order == old(self).model().order,
            final(self).model().free == old(self).model().free,
            r == old(self).model().items.contains_key(id),
            r ==> final(self).model().items == old(self).model().items.insert(id, old(self).model().items[id].updated(s)),
            !r ==> final(self).model().items == old(self).model().items,
    {
        proof {
            broadcast use group_nooid;
            self.lemma_order();
        }
        let ghost old_self = *self;
        let ghost e = slot_map_entries(self.list);
        let ghost m = self.model();
        let key = id.key();
        proof {
            lemma_key_position(e, key);
        }
        match slot_map_get(&self.list, key) {
            Some(slot) => {
                let ghost p = key_position(e, key)->Some_0;
                proof {
                    lemma_nooid_key_injective(m.order[p], id);
                    assert(m.order[p] == id);
                }
                let mut holder: Option<T> = None;
                std::mem::swap(&mut holder, &mut self.components[slot as usize]);
                let mut x = holder.unwrap();
                x.update(s);
                let ghost nv = x;
                let mut back: Option<T> = Some(x);
                std::mem::swap(&mut back, &mut self.components[slot as usize]);
                proof {
                    assert(self.components@ =~= old_self.components@.update(slot as int, Some(nv)));
                    assert forall|i: int| 0 <= i < e.len() && i != p implies e[i].1 != slot by {
                        assert(m.order[i].spec_slot() != m.order[p].spec_slot());
                    }
                    assert forall|j: int| 0 <= j < self.free_list@.len() implies #[trigger] self.free_list@[j].spec_slot() != slot by {
                        assert(old_self.components@[old_self.free_list@[j].spec_slot() as int] is None);
                    }
                    assert(self.wf());
                    let nm = self.model();
                    assert(nm.order =~= m.order) by {
                        assert forall|i: int| 0 <= i < e.len() implies nm.order[i] == m.order[i] by {
                            assert(self.slot_id(e[i].1) == old_self.slot_id(e[i].1));
                        }
                    }
                    assert(nm.items =~= m.items.insert(id, nv)) by {
                        assert forall|x: NooID| #[trigger] nm.items.contains_key(x) implies nm.items[x] == m.items.insert(id, nv)[x] by {
                            if x != id {
                                let i = choose|i: int| 0 <= i < m.order.len() && m.order[i] == x;
                                assert(x.spec_slot() == e[i].1);
                                assert(i != p);
                            }
                        }
                    }
                }
                true
            },
            None => {
                proof {
                    if m.order.contains(id) {
                        let i = choose|i: int| 0 <= i < m.order.len() && m.order[i] == id;
                        assert(e[i].0 == key);
                    }
                }
                false
            },
        }
    }

    /// The identifier, if it names a live component.
    pub fn resolve(&self, id: NooID) -> (r: Option<NooID>)
        requires
            self.wf(),
        ensures
            r == if self.model().items.contains_key(id) {
                Some(id)
            } else {
                None
            },
    {
        match self.get_data(id) {
            Some(_) => Some(id),
            None => None,
        }
    }

    /// The live identifiers, in the order in which they are announced.
    pub fn ids(&self) -> (r: Vec<NooID>)
        requires
            self.wf(),
        ensures
            r@ == self.model().order,
    {
        proof {
            self.lemma_order();
        }
        let ghost e = slot_map_entries(self.list);
        let n = slot_map_len(&self.list);
        let mut out: Vec<NooID> = Vec::new();
        let mut i: usize = 0;
        while i < n
            invariant
                self.wf(),
                n == e.len(),
                e == slot_map_entries(self.list),
                i <= n,
                out@ == self.model().order.take(i as int),
            decreases n - i,
        {
            proof {
                self.lemma_order();
            }
            match slot_map_get_index(&self.list, i) {
                Some((_, slot)) => {
                    let gen = self.generations[slot as usize];
                    out.push(NooID::new(slot, gen));
                    assert(out@ =~= self.model().order.take(i + 1));
                },
                None => {},
            }
            i = i + 1;
        }
        assert(self.model().order.take(n as int) =~= self.model().order);
        out
    }
}

/// Every live identifier appears once in the order, the order holds exactly the
/// live identifiers, no identifier waiting for recycling is live, and the
/// identifier the next component gets does not name a live component.
pub proof fn lemma_component_list_ids<T>(l: &ServerComponentList<T>)
    requires
        l.wf(),
    ensures
        l.model().order.no_duplicates(),
        forall|x: NooID| #[trigger] l.model().items.contains_key(x) <==> l.model().order.contains(x),
        forall|j: int| 0 <= j < l.model().free.len() ==> !l.model().items.contains_key(#[trigger] l.model().free[j]),
        can_provision(l.model()) ==> !l.model().items.contains_key(next_id(l.model())),
{
    l.lemma_ids();
}

/// After an identifier is handed back, the next new component reuses its slot
/// with the following generation.
pub proof fn lemma_recycled_slot<T>(m: ComponentListModel<T>, id: NooID)
    requires
        id.spec_gen() < u32::MAX,
    ensures
        next_id(ComponentListModel { free: m.free.push(id), ..m }) == NooID::spec_new(id.spec_slot(), (id.spec_gen() + 1) as u32),
{
}

// =============================================================================

/// The position of the first `'<'` of `s`, or its length when it has none.
pub open spec fn first_angle(s: Seq<char>) -> int
    decreases s.len(),
{
    if s.len() == 0 {
        0
    } else if s[0] == '<' {
        0
    } else {
        1 + first_angle(s.subrange(1, s.len() as int))
    }
}

/// Whether a `"::"` starts at position `k` of `s`.
pub open spec fn is_separator_at(s: Seq<char>, k: int) -> bool {
    s[k] == ':' && s[k + 1] == ':'
}

/// The position of the last `"::"` of `s`, if any.
pub open spec fn last_path_separator(s: Seq<char>) -> Option<int>
    decreases s.len(),
{
    if s.len() < 2 {
        None
    } else if s[s.len() - 2] == ':' && s[s.len() - 1] == ':' {
        Some(s.len() - 2)
    } else {
        last_path_separator(s.drop_last())
    }
}

/// A type name without its generic arguments and without its module path.
pub open spec fn spec_cleanup_name(s: Seq<char>) -> Seq<char> {
    let p = s.subrange(0, first_angle(s));
    let start = match last_path_separator(p) {
        Some(j) => j + 2,
        None => 0,
    };
    p.subrange(start, p.len() as int)
}

proof fn lemma_first_angle(s: Seq<char>)
    ensures
        0 <= first_angle(s) <= s.len(),
        forall|k: int| 0 <= k < first_angle(s) ==> s[k] != '<',
        first_angle(s) < s.len() ==> s[first_angle(s)] == '<',
    decreases s.len(),
{
    if s.len() > 0 && s[0] != '<' {
        let t = s.subrange(1, s.len() as int);
        lemma_first_angle(t);
        assert forall|k: int| 0 <= k < first_angle(s) implies s[k] != '<' by {
            if k > 0 {
                assert(s[k] == t[k - 1]);
            }
        }
    }
}

proof fn lemma_last_path_separator(s: Seq<char>)
    ensures
        match last_path_separator(s) {
            Some(j) => 0 <= j <= s.len() - 2 && is_separator_at(s, j) && forall|k: int|
                j < k <= s.len() - 2 ==> !#[trigger] is_separator_at(s, k),
            None => forall|k: int| 0 <= k <= s.len() - 2 ==> !#[trigger] is_separator_at(s, k),
        },
    decreases s.len(),
{
    if s.len() >= 2 && !(s[s.len() - 2] == ':' && s[s.len() - 1] == ':') {
        let t = s.drop_last();
        lemma_last_path_separator(t);
        assert forall|k: int| 0 <= k < s.len() - 2 implies #[trigger] is_separator_at(s, k) == is_separator_at(t, k) by {
            assert(s[k] == t[k] && s[k + 1] == t[k + 1]);
        }
    }
}

/// Take a component name and strip out template/paths for debugging/info purposes
pub fn cleanup_name(name: &str) -> (r: &str)
    ensures
        r@ == spec_cleanup_name(name@),
{
    let ghost s = name@;
    proof {
        lemma_first_angle(s);
    }
    let n = name.unicode_len();
    let mut cut: usize = 0;
    while cut < n
        invariant
            n == s.len(),
            s == name@,
            cut <= n,
            forall|k: int| 0 <= k < cut ==> s[k] != '<',
        ensures
            cut <= n,
            forall|k: int| 0 <= k < cut ==> s[k] != '<',
            cut < n ==> s[cut as int] == '<',
        decreases n - cut,
    {
        if name.get_char(cut) == '<' {
            break;
        }
        cut = cut + 1;
    }
    proof {
        if cut != first_angle(s) {
            if cut < first_angle(s) {
                assert(s[cut as int] == '<');
            } else {
                assert(s[first_angle(s)] == '<');
            }
        }
    }
    let ghost p = s.subrange(0, cut as int);
    proof {
        lemma_last_path_separator(p);
    }
    let mut start: usize = 0;
    let mut j: usize = cut;
    while j >= 2
        invariant_except_break
            start == 0,
        invariant
            s == name@,
            p == s.subrange(0, cut as int),
            cut <= s.len(),
            j <= cut,
            forall|k: int| j - 1 <= k <= cut - 2 ==> !#[trigger] is_separator_at(p, k),
        ensures
            start == 0 ==> forall|k: int| 0 <= k <= cut - 2 ==> !#[trigger] is_separator_at(p, k),
            start != 0 ==> 2 <= start <= cut && is_separator_at(p, start - 2) && forall|k: int|
                start - 2 < k <= cut - 2 ==> !#[trigger] is_separator_at(p, k),
        decreases j,
    {
        if name.get_char(j - 2) == ':' && name.get_char(j - 1) == ':' {
            start = j;
            assert(is_separator_at(p, j - 2));
            break;
        }
        j = j - 1;
    }
    proof {
        match last_path_separator(p) {
            Some(q) => {
                if start == 0 {
                    assert(is_separator_at(p, q));
                } else {
                    assert(is_separator_at(p, start - 2));
                    assert(q == start - 2);
                }
            },
            None => {
                if start != 0 {
                    assert(is_separator_at(p, start - 2));
                }
            },
        }
    }
    name.substring_char(start, cut)
}

} // verus!
