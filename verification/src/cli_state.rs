//! What a command line client keeps of a server's document: the fields of
//! every component, by kind and identifier, the document's own fields, and
//! the invocations it waits on.
use vstd::prelude::*;
use crate::common::{ComponentType, ServerMessages, MessageArchType, id_for_message, spec_id_for_message};
use crate::nooid::NooID;
use crate::value::{CborValue, ValueModel, pair_models_of, lemma_pair_models_of};
use crate::value_tools::{TextMap, convert_to_value_map, text_map_of, lookup, lookup_model};
use crate::mapped_client::{decimal, push_decimal, MappedNoodlesClient, UserError};
use crate::client_messages::ClientInvokeMessage;
use crate::client_state::{uuid_text, fresh_invoke_id, invoke_id_text};

verus! {

/// Every key of a CBOR map is text.
pub open spec fn all_text_keys(s: Seq<(ValueModel, ValueModel)>) -> bool {
    forall|i: int| 0 <= i < s.len() ==> (#[trigger] s[i]).0 is Text
}

/// Writing the entries of a CBOR map into a dictionary, one after another.
pub open spec fn spec_merge(dest: Map<Seq<char>, ValueModel>, s: Seq<(ValueModel, ValueModel)>) -> Map<Seq<char>, ValueModel>
    decreases s.len(),
{
    if s.len() == 0 {
        dest
    } else {
        let m = spec_merge(dest, s.drop_last());
        match s.last().0 {
            ValueModel::Text(k) => m.insert(k, s.last().1),
            _ => m,
        }
    }
}

/// Writing a map with text keys into an empty dictionary gives the
/// dictionary the map stands for.
pub proof fn lemma_merge_into_empty(s: Seq<(ValueModel, ValueModel)>)
    requires
        all_text_keys(s),
    ensures
        spec_merge(Map::empty(), s) == text_map_of(s),
    decreases s.len(),
{
    if s.len() > 0 {
        assert(all_text_keys(s.drop_last())) by {
            assert forall|i: int| 0 <= i < s.drop_last().len() implies (#[trigger] s.drop_last()[i]).0 is Text by {
                assert(s.drop_last()[i] == s[i]);
            }
        }
        lemma_merge_into_empty(s.drop_last());
    }
}

/// Write the entries of a CBOR map into a dictionary; every key must be text.
pub fn merge_values(new_map: Vec<(CborValue, CborValue)>, dest: &mut TextMap)
    requires
        all_text_keys(pair_models_of(new_map@)),
    ensures
        final(dest)@ == spec_merge(old(dest)@, pair_models_of(new_map@)),
{
    let ghost s = pair_models_of(new_map@);
    proof {
        lemma_pair_models_of(new_map@);
        assert(s.take(0) =~= Seq::<(ValueModel, ValueModel)>::empty());
    }
    let mut i: usize = 0;
    while i < new_map.len()
        invariant
            i <= new_map@.len(),
            s == pair_models_of(new_map@),
            s.len() == new_map@.len(),
            forall|j: int| 0 <= j < new_map@.len() ==> #[trigger] s[j] == (new_map@[j].0@, new_map@[j].1@),
            all_text_keys(s),
            dest@ == spec_merge(old(dest)@, s.take(i as int)),
        decreases new_map.len() - i,
    {
        assert(s.take(i + 1).drop_last() =~= s.take(i as int));
        assert(s.take(i + 1).last() == s[i as int]);
        assert(s[i as int].0 is Text);
        match &new_map[i].0 {
            CborValue::Text(k) => {
                dest.insert(k.clone(), new_map[i].1.deep_clone());
            },
            _ => {},
        }
        i = i + 1;
    }
    assert(s.take(i as int) =~= s);
}

// =============================================================================

/// The name a kind of component goes by.
pub open spec fn kind_text(kind: ComponentType) -> Seq<char> {
    match kind {
        ComponentType::Entity => "Entity"@,
        ComponentType::Table => "Table"@,
        ComponentType::Plot => "Plot"@,
        ComponentType::Geometry => "Geometry"@,
        ComponentType::Material => "Material"@,
        ComponentType::Light => "Light"@,
        ComponentType::Texture => "Texture"@,
        ComponentType::Image => "Image"@,
        ComponentType::Sampler => "Sampler"@,
        ComponentType::BufferView => "BufferView"@,
        ComponentType::Buffer => "Buffer"@,
        ComponentType::Method => "Method"@,
        ComponentType::Signal => "Signal"@,
        ComponentType::Document => "Document"@,
        ComponentType::NoComponent => "None"@,
    }
}

fn kind_name(kind: ComponentType) -> (r: &'static str)
    ensures
        r@ == kind_text(kind),
{
    match kind {
        ComponentType::Entity => "Entity",
        ComponentType::Table => "Table",
        ComponentType::Plot => "Plot",
        ComponentType::Geometry => "Geometry",
        ComponentType::Material => "Material",
        ComponentType::Light => "Light",
        ComponentType::Texture => "Texture",
        ComponentType::Image => "Image",
        ComponentType::Sampler => "Sampler",
        ComponentType::BufferView => "BufferView",
        ComponentType::Buffer => "Buffer",
        ComponentType::Method => "Method",
        ComponentType::Signal => "Signal",
        ComponentType::Document => "Document",
        ComponentType::NoComponent => "None",
    }
}

/// The name a component gets when the server gives it none: its kind and
/// its identifier, as in `Entity ID(3,1)`.
pub open spec fn spec_default_name(kind: ComponentType, id: NooID) -> Seq<char> {
    kind_text(kind) + " ID("@ + decimal(id.spec_slot() as nat) + ","@ + decimal(id.spec_gen() as nat) + ")"@
}

/// The name a component gets when the server gives it none.
pub fn default_name(kind: ComponentType, id: NooID) -> (r: String)
    ensures
        r@ == spec_default_name(kind, id),
{
    let mut s = String::from_str(kind_name(kind));
    s.append(" ID(");
    push_decimal(&mut s, id.slot());
    s.append(",");
    push_decimal(&mut s, id.gen());
    s.append(")");
    s
}

// =============================================================================

/// The key of an entry of the component store.
pub open spec fn entry_key(e: (ComponentType, NooID, TextMap)) -> (ComponentType, NooID) {
    (e.0, e.1)
}

/// No two entries share a kind and an identifier.
pub open spec fn distinct_entries(s: Seq<(ComponentType, NooID, TextMap)>) -> bool {
    forall|i: int, j: int| 0 <= i < j < s.len() ==> entry_key(#[trigger] s[i]) != entry_key(#[trigger] s[j])
}

/// Whether an entry holds a kind and an identifier.
pub open spec fn holds(s: Seq<(ComponentType, NooID, TextMap)>, k: (ComponentType, NooID)) -> bool {
    exists|i: int| 0 <= i < s.len() && entry_key(#[trigger] s[i]) == k
}

/// The fields of each component in the store.
pub open spec fn store_map(s: Seq<(ComponentType, NooID, TextMap)>) -> Map<(ComponentType, NooID), Map<Seq<char>, ValueModel>> {
    Map::new(
        |k: (ComponentType, NooID)| holds(s, k),
        |k: (ComponentType, NooID)| s[choose|i: int| 0 <= i < s.len() && entry_key(#[trigger] s[i]) == k].2@,
    )
}

proof fn lemma_store_at(s: Seq<(ComponentType, NooID, TextMap)>, i: int)
    requires
        distinct_entries(s),
        0 <= i < s.len(),
    ensures
        store_map(s).contains_key(entry_key(s[i])),
        store_map(s)[entry_key(s[i])] == s[i].2@,
{
    let k = entry_key(s[i]);
    assert(holds(s, k));
    let c = choose|j: int| 0 <= j < s.len() && entry_key(#[trigger] s[j]) == k;
    if c != i {
        if c < i {
            assert(entry_key(s[c]) != entry_key(s[i]));
        } else {
            assert(entry_key(s[i]) != entry_key(s[c]));
        }
    }
}

proof fn lemma_store_update(s: Seq<(ComponentType, NooID, TextMap)>, i: int, e: (ComponentType, NooID, TextMap))
    requires
        distinct_entries(s),
        0 <= i < s.len(),
        entry_key(e) == entry_key(s[i]),
    ensures
        distinct_entries(s.update(i, e)),
        store_map(s.update(i, e)) == store_map(s).insert(entry_key(e), e.2@),
{
    let t = s.update(i, e);
    assert forall|a: int, b: int| 0 <= a < b < t.len() implies entry_key(#[trigger] t[a]) != entry_key(#[trigger] t[b]) by {
        assert(entry_key(t[a]) == entry_key(s[a]));
        assert(entry_key(t[b]) == entry_key(s[b]));
    }
    assert forall|k: (ComponentType, NooID)| #[trigger] store_map(t).contains_key(k) <==> store_map(s).insert(entry_key(e), e.2@).contains_key(k) by {
        if holds(t, k) {
            let j = choose|j: int| 0 <= j < t.len() && entry_key(#[trigger] t[j]) == k;
            assert(entry_key(s[j]) == k);
        }
        if holds(s, k) {
            let j = choose|j: int| 0 <= j < s.len() && entry_key(#[trigger] s[j]) == k;
            assert(entry_key(t[j]) == k);
        }
        if k == entry_key(e) {
            assert(entry_key(t[i]) == k);
        }
    }
    assert forall|k: (ComponentType, NooID)| #[trigger] store_map(t).contains_key(k) implies store_map(t)[k] == store_map(s).insert(entry_key(e), e.2@)[k] by {
        let j = choose|j: int| 0 <= j < t.len() && entry_key(#[trigger] t[j]) == k;
        lemma_store_at(t, j);
        if j != i {
            lemma_store_at(s, j);
        }
    }
    assert(store_map(t) =~= store_map(s).insert(entry_key(e), e.2@));
}

proof fn lemma_store_push(s: Seq<(ComponentType, NooID, TextMap)>, e: (ComponentType, NooID, TextMap))
    requires
        distinct_entries(s),
        !holds(s, entry_key(e)),
    ensures
        distinct_entries(s.push(e)),
        store_map(s.push(e)) == store_map(s).insert(entry_key(e), e.2@),
{
    let t = s.push(e);
    assert forall|a: int, b: int| 0 <= a < b < t.len() implies entry_key(#[trigger] t[a]) != entry_key(#[trigger] t[b]) by {
        if b == s.len() {
            assert(entry_key(t[a]) == entry_key(s[a]));
        } else {
            assert(t[a] == s[a]);
            assert(t[b] == s[b]);
        }
    }
    assert forall|k: (ComponentType, NooID)| #[trigger] store_map(t).contains_key(k) <==> store_map(s).insert(entry_key(e), e.2@).contains_key(k) by {
        if holds(t, k) {
            let j = choose|j: int| 0 <= j < t.len() && entry_key(#[trigger] t[j]) == k;
            if j < s.len() {
                assert(t[j] == s[j]);
            }
        }
        if holds(s, k) {
            let j = choose|j: int| 0 <= j < s.len() && entry_key(#[trigger] s[j]) == k;
            assert(t[j] == s[j]);
        }
        if k == entry_key(e) {
            assert(entry_key(t[s.len() as int]) == k);
        }
    }
    assert forall|k: (ComponentType, NooID)| #[trigger] store_map(t).contains_key(k) implies store_map(t)[k] == store_map(s).insert(entry_key(e), e.2@)[k] by {
        let j = choose|j: int| 0 <= j < t.len() && entry_key(#[trigger] t[j]) == k;
        lemma_store_at(t, j);
        if j < s.len() {
            assert(t[j] == s[j]);
            lemma_store_at(s, j);
        }
    }
    assert(store_map(t) =~= store_map(s).insert(entry_key(e), e.2@));
}

proof fn lemma_store_remove(s: Seq<(ComponentType, NooID, TextMap)>, i: int)
    requires
        distinct_entries(s),
        0 <= i < s.len(),
    ensures
        distinct_entries(s.remove(i)),
        store_map(s.remove(i)) == store_map(s).remove(entry_key(s[i])),
{
    let t = s.remove(i);
    assert forall|a: int| 0 <= a < t.len() implies #[trigger] t[a] == (if a < i { s[a] } else { s[a + 1] }) by {}
    assert forall|a: int, b: int| 0 <= a < b < t.len() implies entry_key(#[trigger] t[a]) != entry_key(#[trigger] t[b]) by {
        let a2 = if a < i { a } else { a + 1 };
        let b2 = if b < i { b } else { b + 1 };
        assert(t[a] == s[a2]);
        assert(t[b] == s[b2]);
        assert(a2 < b2);
    }
    let removed = entry_key(s[i]);
    assert forall|k: (ComponentType, NooID)| #[trigger] store_map(t).contains_key(k) <==> store_map(s).remove(removed).contains_key(k) by {
        if holds(t, k) {
            let j = choose|j: int| 0 <= j < t.len() && entry_key(#[trigger] t[j]) == k;
            let j2 = if j < i { j } else { j + 1 };
            assert(t[j] == s[j2]);
            if j2 < i {
                assert(entry_key(s[j2]) != entry_key(s[i]));
            } else {
                assert(entry_key(s[i]) != entry_key(s[j2]));
            }
        }
        if holds(s, k) && k != removed {
            let j = choose|j: int| 0 <= j < s.len() && entry_key(#[trigger] s[j]) == k;
            assert(j != i);
            let j2 = if j < i { j } else { j - 1 };
            assert(t[j2] == s[j]);
        }
    }
    assert forall|k: (ComponentType, NooID)| #[trigger] store_map(t).contains_key(k) implies store_map(t)[k] == store_map(s).remove(removed)[k] by {
        let j = choose|j: int| 0 <= j < t.len() && entry_key(#[trigger] t[j]) == k;
        lemma_store_at(t, j);
        let j2 = if j < i { j } else { j + 1 };
        assert(t[j] == s[j2]);
        lemma_store_at(s, j2);
    }
    assert(store_map(t) =~= store_map(s).remove(removed));
}

// =============================================================================

/// A created component's fields: as sent, with a default name when the
/// server gives none.
pub open spec fn spec_named(kind: ComponentType, id: NooID, m: Map<Seq<char>, ValueModel>) -> Map<Seq<char>, ValueModel> {
    if m.contains_key("name"@) {
        m
    } else {
        m.insert("name"@, ValueModel::Text(spec_default_name(kind, id)))
    }
}

/// The name a listing shows for a component.
pub open spec fn shown_name(m: Map<Seq<char>, ValueModel>) -> Seq<char> {
    if m.contains_key("name"@) && m["name"@] is Text {
        m["name"@]->Text_0
    } else {
        "Unknown"@
    }
}

/// The components of a kind in the store, in order, with the names shown for them.
pub open spec fn spec_listing(s: Seq<(ComponentType, NooID, TextMap)>, kind: ComponentType) -> Seq<(NooID, Seq<char>)>
    decreases s.len(),
{
    if s.len() == 0 {
        Seq::empty()
    } else if s.last().0 == kind {
        spec_listing(s.drop_last(), kind).push((s.last().1, shown_name(s.last().2@)))
    } else {
        spec_listing(s.drop_last(), kind)
    }
}

/// Messages about components of a kind that has a store.
pub open spec fn is_component_message(m: ServerMessages) -> bool {
    &&& m.spec_arch_type() != MessageArchType::Other
    &&& m.spec_component_type() != ComponentType::Document
}

/// What a command line client keeps of a server's document.
#[derive(Debug)]
pub struct CLIState {
    entries: Vec<(ComponentType, NooID, TextMap)>,
    document: TextMap,
    methods_in_flight: TextMap,
}

impl CLIState {
    /// No two components share a kind and an identifier.
    #[verifier::type_invariant]
    spec fn inv(&self) -> bool {
        distinct_entries(self.entries@)
    }

    /// The fields of each known component, by kind and identifier.
    pub closed spec fn components(&self) -> Map<(ComponentType, NooID), Map<Seq<char>, ValueModel>> {
        store_map(self.entries@)
    }

    /// The document's own fields.
    pub closed spec fn document_fields(&self) -> Map<Seq<char>, ValueModel> {
        self.document@
    }

    /// The invocations awaiting a reply, by identifier.
    pub closed spec fn awaited(&self) -> Map<Seq<char>, ValueModel> {
        self.methods_in_flight@
    }

    /// The components of a kind, in the order they became known, with their shown names.
    pub closed spec fn listing_of(&self, kind: ComponentType) -> Seq<(NooID, Seq<char>)> {
        spec_listing(self.entries@, kind)
    }

    /// Nothing known.
    pub fn new() -> (r: Self)
        ensures
            r.components() == Map::<(ComponentType, NooID), Map<Seq<char>, ValueModel>>::empty(),
            r.document_fields() == Map::<Seq<char>, ValueModel>::empty(),
            r.awaited() == Map::<Seq<char>, ValueModel>::empty(),
            forall|kind: ComponentType| (#[trigger] r.listing_of(kind)).len() == 0,
    {
        let r = CLIState { entries: Vec::new(), document: TextMap::new(), methods_in_flight: TextMap::new() };
        assert(r.components() =~= Map::<(ComponentType, NooID), Map<Seq<char>, ValueModel>>::empty());
        r
    }

    /// Forget the document and every component; invocations stay awaited.
    pub fn clear(&mut self)
        ensures
            final(self).components() == Map::<(ComponentType, NooID), Map<Seq<char>, ValueModel>>::empty(),
            final(self).document_fields() == Map::<Seq<char>, ValueModel>::empty(),
            final(self).awaited() == old(self).awaited(),
    {
        proof {
            use_type_invariant(&*self);
        }
        self.document = TextMap::new();
        self.entries = Vec::new();
        assert(self.components() =~= Map::<(ComponentType, NooID), Map<Seq<char>, ValueModel>>::empty());
    }

    fn take_entries(&mut self) -> (r: Vec<(ComponentType, NooID, TextMap)>)
        ensures
            r@ == old(self).entries@,
            final(self).entries@ == Seq::<(ComponentType, NooID, TextMap)>::empty(),
            final(self).document == old(self).document,
            final(self).methods_in_flight == old(self).methods_in_flight,
    {
        let mut entries: Vec<(ComponentType, NooID, TextMap)> = Vec::new();
        std::mem::swap(&mut entries, &mut self.entries);
        entries
    }

    fn position(&self, kind: ComponentType, id: NooID) -> (r: Option<usize>)
        ensures
            match r {
                Some(i) => i < self.entries@.len() && entry_key(self.entries@[i as int]) == (kind, id),
                None => !holds(self.entries@, (kind, id)),
            },
    {
        let mut i: usize = 0;
        while i < self.entries.len()
            invariant
                i <= self.entries@.len(),
                forall|j: int| 0 <= j < i ==> entry_key(#[trigger] self.entries@[j]) != (kind, id),
            decreases self.entries.len() - i,
        {
            if self.entries[i].0 == kind && self.entries[i].1 == id {
                return Some(i);
            }
            i = i + 1;
        }
        None
    }

    /// The fields of a component, if it is known.
    pub fn find(&self, kind: ComponentType, id: NooID) -> (r: Option<&TextMap>)
        ensures
            match r {
                Some(t) => self.components().contains_key((kind, id)) && self.components()[(kind, id)] == t@,
                None => !self.components().contains_key((kind, id)),
            },
    {
        proof {
            use_type_invariant(self);
        }
        match self.position(kind, id) {
            Some(i) => {
                proof {
                    lemma_store_at(self.entries@, i as int);
                }
                Some(&self.entries[i].2)
            },
            None => None,
        }
    }

    fn put(&mut self, kind: ComponentType, id: NooID, fields: TextMap)
        ensures
            final(self).components() == old(self).components().insert((kind, id), fields@),
            final(self).document_fields() == old(self).document_fields(),
            final(self).awaited() == old(self).awaited(),
    {
        proof {
            use_type_invariant(&*self);
        }
        let ghost e = (kind, id, fields);
        match self.position(kind, id) {
            Some(i) => {
                proof {
                    lemma_store_update(self.entries@, i as int, e);
                }
                let mut entries = self.take_entries();
                entries.set(i, (kind, id, fields));
                self.entries = entries;
            },
            None => {
                proof {
                    lemma_store_push(self.entries@, e);
                }
                let mut entries = self.take_entries();
                entries.push((kind, id, fields));
                self.entries = entries;
            },
        }
    }

    /// A component was created: its fields as sent, named by default if
    /// the server gave no name.
    pub fn insert(&mut self, kind: ComponentType, id: NooID, values: Vec<(CborValue, CborValue)>) -> (r: Option<()>)
        ensures
            r is Some,
            final(self).components() == old(self).components().insert(
                (kind, id),
                spec_named(kind, id, text_map_of(pair_models_of(values@))),
            ),
            final(self).document_fields() == old(self).document_fields(),
            final(self).awaited() == old(self).awaited(),
    {
        let mut fields = convert_to_value_map(values);
        if !fields.contains_key("name") {
            fields.insert(String::from_str("name"), CborValue::Text(default_name(kind, id)));
        }
        self.put(kind, id, fields);
        Some(())
    }

    /// A component was updated: the fields sent are written over its own.
    pub fn update(&mut self, kind: ComponentType, id: NooID, values: Vec<(CborValue, CborValue)>) -> (r: Option<()>)
        requires
            old(self).components().contains_key((kind, id)) ==> all_text_keys(pair_models_of(values@)),
        ensures
            r is Some,
            final(self).components() == if old(self).components().contains_key((kind, id)) {
                old(self).components().insert((kind, id), spec_merge(old(self).components()[(kind, id)], pair_models_of(values@)))
            } else {
                old(self).components()
            },
            final(self).document_fields() == old(self).document_fields(),
            final(self).awaited() == old(self).awaited(),
    {
        proof {
            use_type_invariant(&*self);
        }
        match self.position(kind, id) {
            Some(i) => {
                proof {
                    lemma_store_at(self.entries@, i as int);
                    lemma_store_remove(self.entries@, i as int);
                }
                let ghost before = self.entries@;
                let mut entries = self.take_entries();
                let (k, d, mut fields) = entries.remove(i);
                merge_values(values, &mut fields);
                entries.insert(i, (k, d, fields));
                proof {
                    assert(entries@ =~= before.update(i as int, (k, d, fields)));
                    lemma_store_update(before, i as int, (k, d, fields));
                }
                self.entries = entries;
            },
            None => {},
        }
        Some(())
    }

    /// A component was deleted; deleting one that is not known fails.
    pub fn delete(&mut self, kind: ComponentType, id: NooID) -> (r: Option<()>)
        ensures
            r is Some == old(self).components().contains_key((kind, id)),
            final(self).components() == old(self).components().remove((kind, id)),
            final(self).document_fields() == old(self).document_fields(),
            final(self).awaited() == old(self).awaited(),
    {
        proof {
            use_type_invariant(&*self);
        }
        match self.position(kind, id) {
            Some(i) => {
                proof {
                    lemma_store_remove(self.entries@, i as int);
                }
                let mut entries = self.take_entries();
                let _ = entries.remove(i);
                self.entries = entries;
                Some(())
            },
            None => {
                assert(old(self).components().remove((kind, id)) =~= old(self).components());
                None
            },
        }
    }

    /// The components of a kind, with the names a listing shows.
    pub fn listing(&self, kind: ComponentType) -> (r: Vec<(NooID, String)>)
        ensures
            r@.len() == self.listing_of(kind).len(),
            forall|j: int| 0 <= j < r@.len() ==> (#[trigger] r@[j]).0 == self.listing_of(kind)[j].0 && r@[j].1@ == self.listing_of(kind)[j].1,
    {
        let ghost s = self.entries@;
        let mut out: Vec<(NooID, String)> = Vec::new();
        let mut i: usize = 0;
        proof {
            assert(s.take(0) =~= Seq::<(ComponentType, NooID, TextMap)>::empty());
        }
        while i < self.entries.len()
            invariant
                i <= s.len(),
                s == self.entries@,
                out@.len() == spec_listing(s.take(i as int), kind).len(),
                forall|j: int| 0 <= j < out@.len() ==> (#[trigger] out@[j]).0 == spec_listing(s.take(i as int), kind)[j].0 && out@[j].1@ == spec_listing(s.take(i as int), kind)[j].1,
            decreases self.entries.len() - i,
        {
            assert(s.take(i + 1).drop_last() =~= s.take(i as int));
            assert(s.take(i + 1).last() == s[i as int]);
            if self.entries[i].0 == kind {
                let name = match self.entries[i].2.get("name") {
                    Some(CborValue::Text(t)) => t.clone(),
                    _ => String::from_str("Unknown"),
                };
                out.push((self.entries[i].1, name));
            }
            i = i + 1;
        }
        assert(s.take(i as int) =~= s);
        out
    }
}

// =============================================================================

/// What a component message does to the known components.
pub open spec fn spec_component_message(
    comps: Map<(ComponentType, NooID), Map<Seq<char>, ValueModel>>,
    m: ServerMessages,
    s: Seq<(ValueModel, ValueModel)>,
) -> Map<(ComponentType, NooID), Map<Seq<char>, ValueModel>> {
    let kind = m.spec_component_type();
    let id = spec_id_for_message(s)->Some_0;
    match m.spec_arch_type() {
        MessageArchType::Create => comps.insert((kind, id), spec_named(kind, id, text_map_of(s))),
        MessageArchType::Update => if comps.contains_key((kind, id)) {
            comps.insert((kind, id), spec_merge(comps[(kind, id)], s))
        } else {
            comps
        },
        _ => comps.remove((kind, id)),
    }
}

/// Whether a component message can be applied: it names an identifier, an
/// update of a known component has text keys only, and a deleted component is known.
pub open spec fn component_message_ok(
    comps: Map<(ComponentType, NooID), Map<Seq<char>, ValueModel>>,
    m: ServerMessages,
    s: Seq<(ValueModel, ValueModel)>,
) -> bool {
    let kind = m.spec_component_type();
    &&& is_component_message(m)
    &&& spec_id_for_message(s) is Some
    &&& m.spec_arch_type() == MessageArchType::Update && comps.contains_key((kind, spec_id_for_message(s)->Some_0)) ==> all_text_keys(s)
    &&& m.spec_arch_type() == MessageArchType::Delete ==> comps.contains_key((kind, spec_id_for_message(s)->Some_0))
}

/// The identifier a method reply answers, if it carries one as text.
pub open spec fn spec_reply_id(s: Seq<(ValueModel, ValueModel)>) -> Option<Seq<char>> {
    match lookup_model(s, ValueModel::Text("invoke_id"@)) {
        Some(ValueModel::Text(t)) => Some(t),
        _ => None,
    }
}

/// The names of a method's arguments, in order; arguments without a text name are skipped.
pub open spec fn spec_arg_names(args: Seq<ValueModel>) -> Seq<Seq<char>>
    decreases args.len(),
{
    if args.len() == 0 {
        Seq::empty()
    } else {
        let rest = spec_arg_names(args.drop_last());
        match args.last() {
            ValueModel::Dict(m) => match lookup_model(m, ValueModel::Text("name"@)) {
                Some(ValueModel::Text(t)) => rest.push(t),
                _ => rest,
            },
            _ => rest,
        }
    }
}

/// The argument names of a method's fields, if it documents its arguments as a list.
pub open spec fn spec_method_arg_names(item: Map<Seq<char>, ValueModel>) -> Option<Seq<Seq<char>>> {
    if item.contains_key("arg_doc"@) {
        match item["arg_doc"@] {
            ValueModel::Array(a) => Some(spec_arg_names(a)),
            _ => None,
        }
    } else {
        None
    }
}

/// The argument names of a method, from its fields.
pub fn extract_method_arg_names(item: &TextMap) -> (r: Option<Vec<String>>)
    ensures
        match r {
            Some(v) => spec_method_arg_names(item@) == Some(v@.map_values(|s: String| s@)),
            None => spec_method_arg_names(item@) is None,
        },
{
    let arg_doc = match item.get("arg_doc") {
        Some(CborValue::Array(a)) => a,
        _ => return None,
    };
    let ghost args = crate::value::models_of(arg_doc@);
    proof {
        crate::value::lemma_models_of(arg_doc@);
        assert(args.take(0) =~= Seq::<ValueModel>::empty());
    }
    let name_name = CborValue::Text(String::from_str("name"));
    let mut ret: Vec<String> = Vec::new();
    let mut i: usize = 0;
    while i < arg_doc.len()
        invariant
            i <= arg_doc@.len(),
            args == crate::value::models_of(arg_doc@),
            args.len() == arg_doc@.len(),
            forall|j: int| 0 <= j < arg_doc@.len() ==> #[trigger] args[j] == arg_doc@[j]@,
            name_name@ == ValueModel::Text("name"@),
            ret@.map_values(|s: String| s@) == spec_arg_names(args.take(i as int)),
        decreases arg_doc.len() - i,
    {
        assert(args.take(i + 1).drop_last() =~= args.take(i as int));
        assert(args.take(i + 1).last() == args[i as int]);
        let ghost before = ret@.map_values(|s: String| s@);
        match &arg_doc[i] {
            CborValue::Dict(map) => {
                match lookup(&name_name, map) {
                    Some(CborValue::Text(t)) => {
                        ret.push(t.clone());
                        assert(ret@.map_values(|s: String| s@) =~= before.push(t@));
                    },
                    _ => {},
                }
            },
            _ => {},
        }
        i = i + 1;
    }
    assert(args.take(i as int) =~= args);
    Some(ret)
}

fn text_keys_only(content: &Vec<(CborValue, CborValue)>) -> (r: bool)
    ensures
        r == all_text_keys(pair_models_of(content@)),
{
    proof {
        lemma_pair_models_of(content@);
    }
    let mut i: usize = 0;
    while i < content.len()
        invariant
            i <= content@.len(),
            pair_models_of(content@).len() == content@.len(),
            forall|j: int| 0 <= j < content@.len() ==> #[trigger] pair_models_of(content@)[j] == (content@[j].0@, content@[j].1@),
            forall|j: int| 0 <= j < i ==> (#[trigger] pair_models_of(content@)[j]).0 is Text,
        decreases content.len() - i,
    {
        match &content[i].0 {
            CborValue::Text(_) => {},
            _ => {
                assert(!(pair_models_of(content@)[i as int].0 is Text));
                return false;
            },
        }
        i = i + 1;
    }
    true
}

impl CLIState {
    /// The document's own fields.
    pub fn document(&self) -> (r: &TextMap)
        ensures
            r@ == self.document_fields(),
    {
        &self.document
    }

    /// Whether an invocation with this identifier awaits its reply.
    pub fn is_awaited(&self, invoke_id: &str) -> (r: bool)
        ensures
            r == self.awaited().contains_key(invoke_id@),
    {
        self.methods_in_flight.contains_key(invoke_id)
    }

    /// Apply a message about a component.
    pub fn handle_component_message(&mut self, message: &ServerMessages, content: Vec<(CborValue, CborValue)>) -> (r: Option<()>)
        requires
            component_message_ok(old(self).components(), *message, pair_models_of(content@)),
        ensures
            r is Some,
            final(self).components() == spec_component_message(old(self).components(), *message, pair_models_of(content@)),
            final(self).document_fields() == old(self).document_fields(),
            final(self).awaited() == old(self).awaited(),
    {
        let kind = message.component_type();
        let id = id_for_message(&content).unwrap();
        match message.arch_type() {
            MessageArchType::Create => self.insert(kind, id, content),
            MessageArchType::Update => self.update(kind, id, content),
            _ => self.delete(kind, id),
        }
    }

    /// Apply a message about the document: a reset forgets everything known
    /// but the awaited invocations; an update writes the document's fields.
    pub fn handle_document_message(&mut self, message: &ServerMessages, content: &Vec<(CborValue, CborValue)>) -> (r: Option<()>)
        requires
            *message == ServerMessages::MsgDocumentUpdate ==> all_text_keys(pair_models_of(content@)),
        ensures
            r is Some,
            *message == ServerMessages::MsgDocumentReset ==> {
                &&& final(self).components() == Map::<(ComponentType, NooID), Map<Seq<char>, ValueModel>>::empty()
                &&& final(self).document_fields() == Map::<Seq<char>, ValueModel>::empty()
                &&& final(self).awaited() == old(self).awaited()
            },
            *message == ServerMessages::MsgDocumentUpdate ==> {
                &&& final(self).components() == old(self).components()
                &&& final(self).document_fields() == spec_merge(old(self).document_fields(), pair_models_of(content@))
                &&& final(self).awaited() == old(self).awaited()
            },
            *message != ServerMessages::MsgDocumentReset && *message != ServerMessages::MsgDocumentUpdate ==> {
                &&& final(self).components() == old(self).components()
                &&& final(self).document_fields() == old(self).document_fields()
                &&& final(self).awaited() == old(self).awaited()
            },
    {
        proof {
            use_type_invariant(&*self);
        }
        match message {
            ServerMessages::MsgDocumentReset => {
                self.clear();
                Some(())
            },
            ServerMessages::MsgDocumentUpdate => {
                let mut doc = TextMap::new();
                std::mem::swap(&mut doc, &mut self.document);
                merge_values(crate::value::clone_pairs(content), &mut doc);
                self.document = doc;
                Some(())
            },
            _ => Some(()),
        }
    }

    /// A reply arrived: the invocation it answers no longer awaits one. A
    /// reply without a text identifier fails.
    pub fn handle_method_reply(&mut self, content: &Vec<(CborValue, CborValue)>) -> (r: Option<()>)
        ensures
            r is Some == spec_reply_id(pair_models_of(content@)) is Some,
            final(self).components() == old(self).components(),
            final(self).document_fields() == old(self).document_fields(),
            final(self).awaited() == match spec_reply_id(pair_models_of(content@)) {
                Some(t) => old(self).awaited().remove(t),
                None => old(self).awaited(),
            },
    {
        proof {
            use_type_invariant(&*self);
        }
        let key = CborValue::Text(String::from_str("invoke_id"));
        let reply_id = match lookup(&key, content) {
            Some(CborValue::Text(t)) => t,
            _ => return None,
        };
        let mut awaited = TextMap::new();
        std::mem::swap(&mut awaited, &mut self.methods_in_flight);
        let _ = awaited.remove(reply_id.as_str());
        self.methods_in_flight = awaited;
        Some(())
    }

    /// Apply a message that is about no component: only method replies
    /// change what is known.
    pub fn handle_special_message(&mut self, message: &ServerMessages, content: &Vec<(CborValue, CborValue)>) -> (r: Option<()>)
        ensures
            *message == ServerMessages::MsgMethodReply ==> {
                &&& r is Some == spec_reply_id(pair_models_of(content@)) is Some
                &&& final(self).awaited() == match spec_reply_id(pair_models_of(content@)) {
                    Some(t) => old(self).awaited().remove(t),
                    None => old(self).awaited(),
                }
            },
            *message != ServerMessages::MsgMethodReply ==> r is Some && final(self).awaited() == old(self).awaited(),
            final(self).components() == old(self).components(),
            final(self).document_fields() == old(self).document_fields(),
    {
        match message {
            ServerMessages::MsgMethodReply => self.handle_method_reply(content),
            _ => Some(()),
        }
    }

    /// Invoke a method: the message to send, whose identifier is then awaited.
    pub fn start_invoke(&mut self, method: NooID, args: Vec<CborValue>) -> (r: ClientInvokeMessage)
        ensures
            r.method == method,
            r.context is None,
            r.args == args,
            r.invoke_id matches Some(t) && {
                &&& exists|u: u128| t@ == uuid_text(u)
                &&& final(self).awaited() == old(self).awaited().insert(t@, ValueModel::Text("called"@))
            },
            final(self).components() == old(self).components(),
            final(self).document_fields() == old(self).document_fields(),
    {
        proof {
            use_type_invariant(&*self);
        }
        let u = fresh_invoke_id();
        let invoke_identifier = invoke_id_text(u);
        let mut awaited = TextMap::new();
        std::mem::swap(&mut awaited, &mut self.methods_in_flight);
        awaited.insert(invoke_identifier.clone(), CborValue::Text(String::from_str("called")));
        self.methods_in_flight = awaited;
        ClientInvokeMessage { method, context: None, invoke_id: Some(invoke_identifier), args }
    }
}

impl MappedNoodlesClient for CLIState {
    /// A handled message about a component is one that applies to the known
    /// components, and the components become what it makes of them.
    open spec fn handled_message(self, next: Self, message: ServerMessages, content: Seq<(ValueModel, ValueModel)>) -> bool {
        let kind = message.spec_component_type();
        kind != ComponentType::NoComponent && kind != ComponentType::Document ==> {
            &&& component_message_ok(self.components(), message, content)
            &&& next.components() == spec_component_message(self.components(), message, content)
        }
    }

    /// A refused message changes neither the components nor the document.
    open spec fn refused_message(self, next: Self, message: ServerMessages, content: Seq<(ValueModel, ValueModel)>) -> bool {
        &&& next.components() == self.components()
        &&& next.document_fields() == self.document_fields()
    }

    /// Apply a message from the server. A message that cannot be applied
    /// (no identifier, a deleted component that is not known, keys that are
    /// not text, a reply without an identifier) fails and changes nothing.
    fn handle_message(&mut self, message: ServerMessages, content: &Vec<(CborValue, CborValue)>) -> (r: Result<(), UserError>)
        ensures
            r is Ok ==> (message.spec_component_type() == ComponentType::NoComponent || message.spec_component_type() == ComponentType::Document
                || component_message_ok(old(self).components(), message, pair_models_of(content@))),
            r is Ok && message.spec_component_type() != ComponentType::NoComponent && message.spec_component_type() != ComponentType::Document
                ==> final(self).components() == spec_component_message(old(self).components(), message, pair_models_of(content@)),
            r is Err ==> final(self).components() == old(self).components() && final(self).document_fields() == old(self).document_fields(),
            r is Err <==> {
                ||| message == ServerMessages::MsgMethodReply && spec_reply_id(pair_models_of(content@)) is None
                ||| message == ServerMessages::MsgDocumentUpdate && !all_text_keys(pair_models_of(content@))
                ||| message.spec_component_type() != ComponentType::NoComponent
                    && message.spec_component_type() != ComponentType::Document
                    && !component_message_ok(old(self).components(), message, pair_models_of(content@))
            },
    {
        let kind = message.component_type();
        if kind == ComponentType::NoComponent {
            return match self.handle_special_message(&message, content) {
                Some(_) => Ok(()),
                None => Err(UserError::InternalError),
            };
        }
        if kind == ComponentType::Document {
            if message == ServerMessages::MsgDocumentUpdate && !text_keys_only(content) {
                return Err(UserError::InternalError);
            }
            return match self.handle_document_message(&message, content) {
                Some(_) => Ok(()),
                None => Err(UserError::InternalError),
            };
        }
        proof {
            crate::common::lemma_arch_type_matches_component(message);
        }
        let id = match id_for_message(content) {
            Some(id) => id,
            None => return Err(UserError::InternalError),
        };
        let known = self.find(kind, id).is_some();
        let arch = message.arch_type();
        if arch == MessageArchType::Delete && !known {
            return Err(UserError::InternalError);
        }
        if arch == MessageArchType::Update && known && !text_keys_only(content) {
            return Err(UserError::InternalError);
        }
        match self.handle_component_message(&message, crate::value::clone_pairs(content)) {
            Some(_) => Ok(()),
            None => Err(UserError::InternalError),
        }
    }
}

} // verus!
