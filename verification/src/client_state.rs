//! Client side bookkeeping: the delegates of each kind of component, found by
//! identifier or by name, and where invocations and signals are routed.
use vstd::prelude::*;
use std::collections::HashMap;
use crate::nooid::{NooID, lemma_nooid_key_injective, lemma_nooid_value_round_trip};
use crate::value::CborValue;
use crate::value_tools::TextMap;
use crate::client_messages::InvokeIDType;
use crate::server_communication::SignalInvokeObj;
use crate::client_messages::ClientInvokeMessage;
use crate::client_components::UserClientNext;

verus! {

broadcast use vstd::std_specs::hash::group_hash_axioms;

/// A delegate that stands for one component on the client.
pub trait Delegate: Sized {
    /// `next` is this delegate after it was told its component is deleted.
    /// A delegate that describes nothing allows any change.
    open spec fn told_deleted(self, next: Self) -> bool {
        true
    }

    /// Called when the component is deleted.
    fn on_delete(&mut self)
        ensures
            old(self).told_deleted(*final(self)),
    ;
}

/// The delegate for the document when the user supplies none.
#[derive(Debug, Default)]
pub struct DefaultDocumentDelegate {}

/// What a component list holds: the delegate of each component, and the
/// names under which components were announced.
pub struct ComponentListModel<D> {
    pub components: Map<NooID, D>,
    pub names: Map<Seq<char>, NooID>,
    pub rev_names: Map<NooID, Seq<char>>,
}

/// The delegates of one kind of component.
pub struct ComponentList<D> {
    name_map: TextMap,
    name_rev_map: HashMap<u64, String>,
    components: HashMap<u64, D>,
}

/// A map keyed by identifier keys, read as a map keyed by identifiers.
pub open spec fn by_id<V>(m: Map<u64, V>) -> Map<NooID, V> {
    Map::new(|id: NooID| m.contains_key(id.spec_key()), |id: NooID| m[id.spec_key()])
}

/// Inserting under the key of an identifier inserts under the identifier.
proof fn lemma_by_id_insert<V>(m: Map<u64, V>, id: NooID, v: V)
    ensures
        by_id(m.insert(id.spec_key(), v)) == by_id(m).insert(id, v),
{
    assert forall|x: NooID| #[trigger] by_id(m.insert(id.spec_key(), v)).contains_key(x) <==> by_id(m).insert(id, v).contains_key(x) by {
        lemma_nooid_key_injective(x, id);
    }
    assert forall|x: NooID| #[trigger] by_id(m.insert(id.spec_key(), v)).contains_key(x) implies by_id(m.insert(id.spec_key(), v))[x] == by_id(m).insert(id, v)[x] by {
        lemma_nooid_key_injective(x, id);
    }
    assert(by_id(m.insert(id.spec_key(), v)) =~= by_id(m).insert(id, v));
}

/// Removing the key of an identifier removes the identifier.
proof fn lemma_by_id_remove<V>(m: Map<u64, V>, id: NooID)
    ensures
        by_id(m.remove(id.spec_key())) == by_id(m).remove(id),
{
    assert forall|x: NooID| #[trigger] by_id(m.remove(id.spec_key())).contains_key(x) <==> by_id(m).remove(id).contains_key(x) by {
        lemma_nooid_key_injective(x, id);
    }
    assert(by_id(m.remove(id.spec_key())) =~= by_id(m).remove(id));
}

/// A text map whose values are identifiers, read as a map to identifiers.
pub open spec fn ids_of(m: Map<Seq<char>, crate::value::ValueModel>) -> Map<Seq<char>, NooID> {
    Map::new(|n: Seq<char>| m.contains_key(n), |n: Seq<char>| NooID::spec_from_value(m[n])->Some_0)
}

impl<D> ComponentList<D> {
    /// Every recorded name stands for an identifier.
    pub closed spec fn wf(&self) -> bool {
        forall|n: Seq<char>| #[trigger] self.name_map@.contains_key(n) ==> NooID::spec_from_value(self.name_map@[n]) is Some
    }

    /// What the list holds.
    pub closed spec fn model(&self) -> ComponentListModel<D> {
        ComponentListModel {
            components: by_id(self.components@),
            names: ids_of(self.name_map@),
            rev_names: by_id(self.name_rev_map@.map_values(|s: String| s@)),
        }
    }

    /// An empty list.
    pub fn new() -> (r: Self)
        ensures
            r.wf(),
            r.model().components == Map::<NooID, D>::empty(),
            r.model().names == Map::<Seq<char>, NooID>::empty(),
            r.model().rev_names == Map::<NooID, Seq<char>>::empty(),
    {
        let r = Self { name_map: TextMap::new(), name_rev_map: HashMap::new(), components: HashMap::new() };
        assert(r.model().components =~= Map::<NooID, D>::empty());
        assert(r.model().names =~= Map::<Seq<char>, NooID>::empty());
        assert(r.model().rev_names =~= Map::<NooID, Seq<char>>::empty());
        r
    }

    /// Called when a delegate should be created
    pub fn on_create(&mut self, id: NooID, name: Option<String>, del: D)
        requires
            old(self).wf(),
        ensures
            final(self).wf(),
            final(self).model().components == old(self).model().components.insert(id, del),
            final(self).model().names == match name {
                Some(n) => old(self).model().names.insert(n@, id),
                None => old(self).model().names,
            },
            final(self).model().rev_names == match name {
                Some(n) => old(self).model().rev_names.insert(id, n@),
                None => old(self).model().rev_names,
            },
    {
        let ghost old_model = self.model();
        let ghost old_comps = self.components@;
        let ghost old_rev = self.name_rev_map@;
        self.components.insert(id.key(), del);
        proof {
            lemma_by_id_insert(old_comps, id, del);
        }
        match name {
            Some(n) => {
                let ghost nm = n@;
                let ghost old_names = self.name_map@;
                proof {
                    lemma_nooid_value_round_trip(id);
                }
                self.name_map.insert(n.clone(), id.to_value());
                self.name_rev_map.insert(id.key(), n);
                proof {
                    lemma_nooid_value_round_trip(id);
                    assert(self.model().names =~= old_model.names.insert(nm, id));
                    assert(self.name_rev_map@.map_values(|s: String| s@) =~= old_rev.map_values(|s: String| s@).insert(id.spec_key(), nm));
                    lemma_by_id_insert(old_rev.map_values(|s: String| s@), id, nm);
                }
            },
            None => {},
        }
    }

    /// Called when a delegate should be destroyed; the delegate is told, and handed back.
    pub fn on_delete(&mut self, id: NooID) -> (r: D)
        where D: Delegate
        requires
            old(self).wf(),
            old(self).model().components.contains_key(id),
        ensures
            final(self).wf(),
            final(self).model().components == old(self).model().components.remove(id),
            final(self).model().rev_names == old(self).model().rev_names.remove(id),
            final(self).model().names == if old(self).model().rev_names.contains_key(id) {
                old(self).model().names.remove(old(self).model().rev_names[id])
            } else {
                old(self).model().names
            },
            old(self).model().components[id].told_deleted(r),
    {
        let ghost old_model = self.model();
        let ghost old_comps = self.components@;
        let ghost old_rev = self.name_rev_map@;
        let key = id.key();
        let mut pack = self.components.remove(&key).unwrap();
        proof {
            lemma_by_id_remove(old_comps, id);
        }
        pack.on_delete();
        let name = self.name_rev_map.remove(&key);
        proof {
            assert(self.name_rev_map@.map_values(|s: String| s@) =~= old_rev.map_values(|s: String| s@).remove(id.spec_key()));
            lemma_by_id_remove(old_rev.map_values(|s: String| s@), id);
        }
        match name {
            Some(n) => {
                let _ = self.name_map.remove(n.as_str());
                assert(self.model().names =~= old_model.names.remove(n@));
            },
            None => {},
        }
        pack
    }

    /// Find a component state by ID
    pub fn find(&self, id: &NooID) -> (r: Option<&D>)
        ensures
            match r {
                Some(d) => self.model().components.contains_key(*id) && *d == self.model().components[*id],
                None => !self.model().components.contains_key(*id),
            },
    {
        self.components.get(&id.key())
    }

    /// Take a delegate out of the list, to call it with the lists at hand.
    pub fn take(&mut self, id: &NooID) -> (r: Option<D>)
        requires
            old(self).wf(),
        ensures
            final(self).wf(),
            final(self).model().components == old(self).model().components.remove(*id),
            final(self).model().names == old(self).model().names,
            final(self).model().rev_names == old(self).model().rev_names,
            match r {
                Some(d) => old(self).model().components.contains_key(*id) && d == old(self).model().components[*id],
                None => !old(self).model().components.contains_key(*id),
            },
    {
        let ghost old_comps = self.components@;
        let r = self.components.remove(&id.key());
        proof {
            lemma_by_id_remove(old_comps, *id);
        }
        r
    }

    /// Put back a delegate that was taken out.
    pub fn replace(&mut self, id: &NooID, del: D)
        requires
            old(self).wf(),
        ensures
            final(self).wf(),
            final(self).model().components == old(self).model().components.insert(*id, del),
            final(self).model().names == old(self).model().names,
            final(self).model().rev_names == old(self).model().rev_names,
    {
        let ghost old_comps = self.components@;
        self.components.insert(id.key(), del);
        proof {
            lemma_by_id_insert(old_comps, *id, del);
        }
    }

    /// Find a component ID by a name
    pub fn get_id_by_name(&self, name: &str) -> (r: Option<NooID>)
        requires
            self.wf(),
        ensures
            r == if self.model().names.contains_key(name@) {
                Some(self.model().names[name@])
            } else {
                None
            },
    {
        match self.name_map.get(name) {
            Some(v) => NooID::from_value(v),
            None => None,
        }
    }

    /// Get a component state by a name
    pub fn get_state_by_name(&self, name: &str) -> (r: Option<&D>)
        requires
            self.wf(),
        ensures
            match r {
                Some(d) => self.model().names.contains_key(name@) && self.model().components.contains_key(
                    self.model().names[name@],
                ) && *d == self.model().components[self.model().names[name@]],
                None => !self.model().names.contains_key(name@) || !self.model().components.contains_key(
                    self.model().names[name@],
                ),
            },
    {
        match self.get_id_by_name(name) {
            Some(id) => self.find(&id),
            None => None,
        }
    }

    /// Forget every component and every name.
    pub fn clear(&mut self)
        requires
            old(self).wf(),
        ensures
            final(self).wf(),
            final(self).model().components == Map::<NooID, D>::empty(),
            final(self).model().names == Map::<Seq<char>, NooID>::empty(),
            final(self).model().rev_names == Map::<NooID, Seq<char>>::empty(),
    {
        self.name_map = TextMap::new();
        self.name_rev_map.clear();
        self.components.clear();
        assert(self.model().rev_names =~= Map::<NooID, Seq<char>>::empty());
        assert(self.model().components =~= Map::<NooID, D>::empty());
        assert(self.model().names =~= Map::<Seq<char>, NooID>::empty());
    }
}

// =============================================================================

/// Context for a method invocation
#[derive(Debug, Clone, Copy, PartialEq, Eq, Structural)]
pub enum InvokeContext {
    Document,
    Entity(NooID),
    Table(NooID),
    Plot(NooID),
}

/// The target an invocation names on the wire: none for the document.
pub open spec fn spec_invoke_target(context: InvokeContext) -> Option<InvokeIDType> {
    match context {
        InvokeContext::Document => None,
        InvokeContext::Entity(id) => Some(InvokeIDType::Entity(id)),
        InvokeContext::Table(id) => Some(InvokeIDType::Table(id)),
        InvokeContext::Plot(id) => Some(InvokeIDType::Plot(id)),
    }
}

/// The target an invocation names on the wire: none for the document.
pub fn invoke_target(context: InvokeContext) -> (r: Option<InvokeIDType>)
    ensures
        r == spec_invoke_target(context),
{
    match context {
        InvokeContext::Document => None,
        InvokeContext::Entity(id) => Some(InvokeIDType::Entity(id)),
        InvokeContext::Table(id) => Some(InvokeIDType::Table(id)),
        InvokeContext::Plot(id) => Some(InvokeIDType::Plot(id)),
    }
}

/// The component that receives a signal: with no context the document, else
/// the entity if one is named, else the plot, else the table.
pub open spec fn spec_signal_target(context: Option<SignalInvokeObj<NooID, NooID, NooID>>) -> Option<InvokeContext> {
    match context {
        None => Some(InvokeContext::Document),
        Some(c) => match c.entity {
            Some(e) => Some(InvokeContext::Entity(e)),
            None => match c.plot {
                Some(p) => Some(InvokeContext::Plot(p)),
                None => match c.table {
                    Some(t) => Some(InvokeContext::Table(t)),
                    None => None,
                },
            },
        },
    }
}

/// The component that receives a signal, if any.
pub fn signal_target(context: &Option<SignalInvokeObj<NooID, NooID, NooID>>) -> (r: Option<InvokeContext>)
    ensures
        r == spec_signal_target(*context),
{
    match context {
        None => Some(InvokeContext::Document),
        Some(c) => match c.entity {
            Some(e) => Some(InvokeContext::Entity(e)),
            None => match c.plot {
                Some(p) => Some(InvokeContext::Plot(p)),
                None => match c.table {
                    Some(t) => Some(InvokeContext::Table(t)),
                    None => None,
                },
            },
        },
    }
}

// =============================================================================

/// The lower-case hexadecimal digit for a number below sixteen.
pub open spec fn hex_digit(d: nat) -> char {
    if d < 10 {
        (('0' as nat) + d) as char
    } else {
        (('a' as nat) + d - 10) as char
    }
}

/// The last `k` hexadecimal digits of a number, most significant first.
pub open spec fn hex_digits(n: nat, k: nat) -> Seq<char>
    decreases k,
{
    if k == 0 {
        Seq::empty()
    } else {
        hex_digits(n / 16, (k - 1) as nat).push(hex_digit(n % 16))
    }
}

/// The text of an invocation identifier: the hyphenated form of the UUID
/// with these 128 bits, 32 lower-case hexadecimal digits, most significant
/// first, in groups of 8, 4, 4, 4 and 12 joined by hyphens.
pub open spec fn uuid_text(id: u128) -> Seq<char> {
    let h = hex_digits(id as nat, 32);
    h.subrange(0, 8) + seq!['-'] + h.subrange(8, 12) + seq!['-'] + h.subrange(12, 16) + seq!['-']
        + h.subrange(16, 20) + seq!['-'] + h.subrange(20, 32)
}

/// The bits of the UUID a text stands for, if it stands for one.
pub uninterp spec fn uuid_parse(s: Seq<char>) -> Option<u128>;

/// `Uuid::new_v4`, as its 128 bits: a random identifier. Nothing is stated of it.
#[verifier::external_body]
pub(crate) fn fresh_invoke_id() -> (r: u128) {
    uuid::Uuid::new_v4().as_u128()
}

/// `Uuid::to_string` of `Uuid::from_u128`: the hyphenated lower-case form
/// of the bits, most significant first, which `Uuid::parse_str` reads back.
#[verifier::external_body]
pub(crate) fn invoke_id_text(id: u128) -> (r: String)
    ensures
        r@ == uuid_text(id),
        r@.len() == 36,
        uuid_parse(r@) == Some(id),
{
    uuid::Uuid::from_u128(id).to_string()
}

/// `Uuid::parse_str`, as the bits of the UUID read.
#[verifier::external_body]
pub(crate) fn parse_invoke_id(s: &str) -> (r: Option<u128>)
    ensures
        r == uuid_parse(s@),
{
    uuid::Uuid::parse_str(s).ok().map(|u| u.as_u128())
}

/// What taking the context of a reply gives: an error when the reply's
/// identifier is no UUID, else the context waiting under it, which is forgotten.
pub open spec fn spec_take_reply(subs: Map<u128, InvokeContext>, invoke_id: Seq<char>) -> (
    Result<Option<InvokeContext>, ()>,
    Map<u128, InvokeContext>,
) {
    match uuid_parse(invoke_id) {
        None => (Err(()), subs),
        Some(id) => if subs.contains_key(id) {
            (Ok(Some(subs[id])), subs.remove(id))
        } else {
            (Ok(None), subs)
        },
    }
}

/// The invocations a client has sent and not yet seen answered.
#[derive(Debug)]
pub struct MethodSubscriptions {
    method_subs: HashMap<u128, InvokeContext>,
}

impl MethodSubscriptions {
    /// The context of each pending invocation, by identifier.
    pub closed spec fn view_map(&self) -> Map<u128, InvokeContext> {
        self.method_subs@
    }

    /// No pending invocation.
    pub fn new() -> (r: Self)
        ensures
            r.view_map() == Map::<u128, InvokeContext>::empty(),
    {
        MethodSubscriptions { method_subs: HashMap::new() }
    }

    /// Invoke a method on a component: the message to send, and the
    /// identifier under which the reply is awaited.
    pub fn invoke_method(&mut self, method_id: NooID, context: InvokeContext, args: Vec<CborValue>) -> (r: (u128, ClientInvokeMessage))
        ensures
            final(self).view_map() == old(self).view_map().insert(r.0, context),
            r.1.method == method_id,
            r.1.context == match context {
                InvokeContext::Document => None,
                InvokeContext::Entity(id) => Some(InvokeIDType::Entity(id)),
                InvokeContext::Table(id) => Some(InvokeIDType::Table(id)),
                InvokeContext::Plot(id) => Some(InvokeIDType::Plot(id)),
            },
            r.1.invoke_id matches Some(t) && t@ == uuid_text(r.0) && uuid_parse(t@) == Some(r.0),
            r.1.args == args,
    {
        let invoke_id = fresh_invoke_id();
        let content = ClientInvokeMessage {
            method: method_id,
            context: invoke_target(context),
            invoke_id: Some(invoke_id_text(invoke_id)),
            args,
        };
        self.method_subs.insert(invoke_id, context);
        (invoke_id, content)
    }

    /// Take the context that waits for a reply, by the reply's identifier.
    pub fn take_reply_context(&mut self, invoke_id: &str) -> (r: Result<Option<InvokeContext>, UserClientNext>)
        ensures
            match spec_take_reply(old(self).view_map(), invoke_id@) {
                (Err(()), m) => r matches Err(UserClientNext::MethodError) && final(self).view_map() == m,
                (Ok(c), m) => r == Ok::<Option<InvokeContext>, UserClientNext>(c) && final(self).view_map() == m,
            },
    {
        let id = match parse_invoke_id(invoke_id) {
            Some(id) => id,
            None => return Err(UserClientNext::MethodError),
        };
        Ok(self.method_subs.remove(&id))
    }

    /// Take the context that waits for the reply with this identifier.
    pub fn take(&mut self, invoke_id: u128) -> (r: Option<InvokeContext>)
        ensures
            r == (if old(self).view_map().contains_key(invoke_id) {
                Some(old(self).view_map()[invoke_id])
            } else {
                None
            }),
            final(self).view_map() == old(self).view_map().remove(invoke_id),
    {
        self.method_subs.remove(&invoke_id)
    }

    /// Forget every pending invocation.
    pub fn clear(&mut self)
        ensures
            final(self).view_map() == Map::<u128, InvokeContext>::empty(),
    {
        self.method_subs.clear();
    }
}

/// The reply to an invocation reaches the context that made it, once.
pub proof fn lemma_reply_reaches_invoker(subs: Map<u128, InvokeContext>, id: u128, context: InvokeContext, text: Seq<char>)
    requires
        uuid_parse(text) == Some(id),
    ensures
        spec_take_reply(subs.insert(id, context), text) == (
            Ok::<Option<InvokeContext>, ()>(Some(context)),
            subs.insert(id, context).remove(id),
        ),
        spec_take_reply(subs.insert(id, context).remove(id), text).0 == Ok::<Option<InvokeContext>, ()>(None),
{
}

} // verus!
