//! What a server tells its clients: the message that announces a component,
//! the one that withdraws it, document updates and signals, each as the
//! message number followed by its content.
use vstd::prelude::*;
use crate::common::{ServerMessages, ComponentType};
use crate::nooid::NooID;
use crate::value::{CborValue, ValueModel, pair_models_of};
use crate::value_tools::{CBORTransform, text_map_of};
use crate::table::push_pair;
use crate::components::{ComponentMessageIDs, MethodState, SignalState};
use crate::component_codec::{FieldWriter, MapTransform, MethodStateModel, SignalStateModel, lemma_text_map_of_prefix};
use crate::component_list::{ServerComponentList, ComponentListModel};
use crate::server_communication::{DocumentUpdate, MessageSignalInvoke, SignalInvokeObj};
use crate::message_codec::{DocumentUpdateModel, MessageSignalInvokeModel};
use crate::client_dispatch::{FromServerModel, spec_decode_pack, spec_decode_all};
use crate::root_message::spec_split_root;

verus! {

/// A message with its number in front, as the server sends a single message.
pub open spec fn spec_record(m: ServerMessages, content: ValueModel) -> ValueModel {
    ValueModel::Array(seq![ValueModel::Integer(m.spec_to_u32() as int), content])
}

fn record(m: ServerMessages, content: CborValue) -> (r: CborValue)
    ensures
        r@ == spec_record(m, content@),
{
    let out = vec![CborValue::Integer(m.to_u32() as i128), content];
    proof {
        crate::value::lemma_models_of(out@);
    }
    assert(crate::value::models_of(out@) =~= seq![ValueModel::Integer(m.spec_to_u32() as int), out@[1]@]);
    CborValue::Array(out)
}

/// The content that announces a component: its identifier and its fields in one map.
pub open spec fn spec_created<T: FieldWriter>(id: NooID, m: T::V) -> ValueModel {
    ValueModel::Dict(seq![(ValueModel::Text("id"@), id.spec_to_value())] + T::fields_spec(m))
}

fn created<T: FieldWriter>(id: NooID, state: &T) -> (r: CborValue)
    ensures
        r@ == spec_created::<T>(id, state.deep_view()),
{
    let mut out: Vec<(CborValue, CborValue)> = Vec::new();
    push_pair(&mut out, "id", id.to_value());
    state.write_fields(&mut out);
    assert(pair_models_of(out@) =~= seq![(ValueModel::Text("id"@), id.spec_to_value())] + T::fields_spec(state.deep_view()));
    CborValue::Dict(out)
}

/// The message that announces a new component to clients.
pub fn create_record<T: FieldWriter + ComponentMessageIDs>(id: NooID, state: &T) -> (r: CborValue)
    ensures
        r@ == spec_record(T::spec_create_id(), spec_created::<T>(id, state.deep_view())),
{
    record(T::create_message_id(), created(id, state))
}

/// The message that tells clients a component has changed: its identifier
/// and the fields of the update in one map.
pub fn update_record<T: ComponentMessageIDs, S: FieldWriter>(id: NooID, update: &S) -> (r: CborValue)
    ensures
        r@ == spec_record(T::spec_update_id(), spec_created::<S>(id, update.deep_view())),
{
    record(T::update_message_id(), created(id, update))
}

/// The message that tells clients a component is gone.
pub fn delete_record<T: ComponentMessageIDs>(id: NooID) -> (r: CborValue)
    ensures
        r@ == spec_record(T::spec_delete_id(), ValueModel::Dict(seq![(ValueModel::Text("id"@), id.spec_to_value())])),
{
    let mut out: Vec<(CborValue, CborValue)> = Vec::new();
    push_pair(&mut out, "id", id.to_value());
    assert(pair_models_of(out@) =~= seq![(ValueModel::Text("id"@), id.spec_to_value())]);
    record(T::delete_message_id(), CborValue::Dict(out))
}

/// The message that updates the document's methods and signals.
pub fn document_update_record(update: &DocumentUpdate<NooID, NooID>) -> (r: CborValue)
    ensures
        r@ == spec_record(ServerMessages::MsgDocumentUpdate, DocumentUpdate::<NooID, NooID>::encode_spec(update.deep_view())),
{
    record(ServerMessages::MsgDocumentUpdate, update.to_cbor())
}

/// The message that issues a signal to every client.
pub fn signal_record(signal: NooID, context: Option<SignalInvokeObj<NooID, NooID, NooID>>, arguments: Vec<CborValue>) -> (r: CborValue)
    ensures
        r@ == spec_record(
            ServerMessages::MsgSignalInvoke,
            MessageSignalInvoke::<NooID, NooID, NooID>::encode_spec(MessageSignalInvokeModel {
                id: signal,
                context,
                signal_data: arguments.deep_view(),
            }),
        ),
{
    let msg = MessageSignalInvoke { id: signal, context, signal_data: arguments };
    record(ServerMessages::MsgSignalInvoke, msg.to_cbor())
}

/// The pack entries that announce every component of a list, in the list's
/// order: the creation number, then the component's identifier and fields.
pub open spec fn spec_list_dump<T: FieldWriter + ComponentMessageIDs>(m: ComponentListModel<T>) -> Seq<ValueModel> {
    Seq::new(
        2 * m.order.len(),
        |k: int|
            if k % 2 == 0 {
                ValueModel::Integer(T::spec_create_id().spec_to_u32() as int)
            } else {
                spec_created::<T>(m.order[k / 2], m.items[m.order[k / 2]].deep_view())
            },
    )
}

impl<T: FieldWriter + ComponentMessageIDs> ServerComponentList<T> {
    /// The messages that announce every component of the list, in the
    /// list's order, as a pack of numbers and contents.
    pub fn dump_state_helper(&self) -> (r: Vec<CborValue>)
        requires
            self.wf(),
        ensures
            crate::value::models_of(r@) == spec_list_dump::<T>(self.model()),
    {
        proof {
            self.lemma_ids();
        }
        let ids = self.ids();
        let number = T::create_message_id().to_u32();
        let mut out: Vec<CborValue> = Vec::new();
        let mut i: usize = 0;
        while i < ids.len()
            invariant
                i <= ids@.len(),
                ids@ == self.model().order,
                self.wf(),
                number == T::spec_create_id().spec_to_u32(),
                forall|x: NooID| #[trigger] self.model().items.contains_key(x) <==> self.model().order.contains(x),
                out@.len() == 2 * i,
                forall|j: int| 0 <= j < i ==> {
                    &&& (#[trigger] out@[2 * j])@ == ValueModel::Integer(T::spec_create_id().spec_to_u32() as int)
                    &&& out@[2 * j + 1]@ == spec_created::<T>(self.model().order[j], self.model().items[self.model().order[j]].deep_view())
                },
            decreases ids.len() - i,
        {
            let id = ids[i];
            assert(self.model().order.contains(id)) by {
                assert(self.model().order[i as int] == id);
            }
            let state = self.get_data(id).unwrap();
            out.push(CborValue::Integer(number as i128));
            out.push(created(id, state));
            i = i + 1;
        }
        proof {
            let target = spec_list_dump::<T>(self.model());
            assert forall|k: int| 0 <= k < out@.len() implies crate::value::model_of(#[trigger] out@[k]) == target[k] by {
                let j = k / 2;
                assert(0 <= j < i);
                if k % 2 == 0 {
                    assert(k == 2 * j);
                } else {
                    assert(k == 2 * j + 1);
                }
            }
            crate::value::lemma_models_of_ext(out@, target);
        }
        out
    }
}

/// A method the server announces is read back by a client as the creation
/// of a method with that identifier and name.
pub proof fn lemma_method_announcement_read(id: NooID, m: MethodStateModel)
    ensures
        spec_decode_pack(spec_record(ServerMessages::MsgMethodCreate, spec_created::<MethodState<u64>>(id, m))) == Some(seq![
            FromServerModel::Create {
                kind: ComponentType::Method,
                id,
                name: Some(m.name),
                content: spec_created::<MethodState<u64>>(id, m),
            },
        ]),
{
    reveal_with_fuel(spec_split_root, 2);
    reveal_with_fuel(spec_decode_all, 2);
    let f = MethodState::<u64>::fields_spec(m);
    MethodState::<u64>::lemma_map_form(m);
    crate::nooid::lemma_nooid_value_round_trip(id);
    lemma_text_map_of_prefix("id"@, id.spec_to_value(), f);
    let content = spec_created::<MethodState<u64>>(id, m);
    let s = seq![ValueModel::Integer(ServerMessages::MsgMethodCreate.spec_to_u32() as int), content];
    assert(s.subrange(2, s.len() as int) =~= Seq::<ValueModel>::empty());
    let l = seq![(ServerMessages::MsgMethodCreate, content)];
    assert(spec_split_root(s) == Ok::<Seq<(ServerMessages, ValueModel)>, crate::root_message::RootMessageError>(seq![(ServerMessages::MsgMethodCreate, content)] + Seq::empty()));
    assert(seq![(ServerMessages::MsgMethodCreate, content)] + Seq::<(ServerMessages, ValueModel)>::empty() =~= l);
    assert(l.drop_last() =~= Seq::<(ServerMessages, ValueModel)>::empty());
    let tm = text_map_of(seq![(ValueModel::Text("id"@), id.spec_to_value())] + f);
    assert(tm == text_map_of(f).insert("id"@, id.spec_to_value()));
    assert(tm.remove("id"@) =~= text_map_of(f).remove("id"@));
    assert(text_map_of(f).remove("id"@) =~= text_map_of(f));
    MethodState::<()>::lemma_map_form(m);
    reveal_strlit("doc");
    reveal_strlit("return_doc");
    reveal_strlit("arg_doc");
    reveal_strlit("id");
    reveal_strlit("name");
    let fm = text_map_of(f);
    let v = id.spec_to_value();
    assert("id"@ != "name"@ && "id"@ != "doc"@ && "id"@ != "return_doc"@ && "id"@ != "arg_doc"@) by {
        assert("id"@[0] != "name"@[0]);
        assert("id"@[0] != "doc"@[0]);
        assert("id"@[0] != "return_doc"@[0]);
        assert("id"@[0] != "arg_doc"@[0]);
    }
    assert(tm.remove("name"@) =~= fm.remove("name"@).insert("id"@, v));
    assert(tm.remove("name"@).remove("doc"@) =~= fm.remove("name"@).remove("doc"@).insert("id"@, v));
    assert(tm.remove("name"@).remove("doc"@).remove("return_doc"@) =~= fm.remove("name"@).remove("doc"@).remove("return_doc"@).insert("id"@, v));
    assert(MethodState::<()>::from_map_spec(tm) == MethodState::<()>::from_map_spec(fm));
    assert(Seq::<FromServerModel>::empty().push(FromServerModel::Create {
        kind: ComponentType::Method,
        id,
        name: Some(m.name),
        content,
    }) =~= seq![FromServerModel::Create { kind: ComponentType::Method, id, name: Some(m.name), content }]);
    reveal_strlit("name");
}

/// A signal the server issues is read back by a client as that signal, with
/// its context and arguments.
pub proof fn lemma_signal_read(x: MessageSignalInvoke<NooID, NooID, NooID>)
    ensures
        spec_decode_pack(spec_record(ServerMessages::MsgSignalInvoke, MessageSignalInvoke::<NooID, NooID, NooID>::encode_spec(x.deep_view())))
            == Some(seq![FromServerModel::SignalInvoke(x.deep_view())]),
{
    reveal_with_fuel(spec_split_root, 2);
    reveal_with_fuel(spec_decode_all, 2);
    <MessageSignalInvoke<NooID, NooID, NooID> as CBORTransform>::lemma_round_trip(x);
    let content = MessageSignalInvoke::<NooID, NooID, NooID>::encode_spec(x.deep_view());
    let s = seq![ValueModel::Integer(ServerMessages::MsgSignalInvoke.spec_to_u32() as int), content];
    assert(s.subrange(2, s.len() as int) =~= Seq::<ValueModel>::empty());
    let l = seq![(ServerMessages::MsgSignalInvoke, content)];
    assert(seq![(ServerMessages::MsgSignalInvoke, content)] + Seq::<(ServerMessages, ValueModel)>::empty() =~= l);
    assert(l.drop_last() =~= Seq::<(ServerMessages, ValueModel)>::empty());
    assert(Seq::<FromServerModel>::empty().push(FromServerModel::SignalInvoke(x.deep_view())) =~= seq![FromServerModel::SignalInvoke(x.deep_view())]);
}

/// A document update the server sends is read back by a client as that update.
pub proof fn lemma_document_update_read(u: DocumentUpdate<NooID, NooID>)
    ensures
        spec_decode_pack(spec_record(ServerMessages::MsgDocumentUpdate, DocumentUpdate::<NooID, NooID>::encode_spec(u.deep_view())))
            == Some(seq![FromServerModel::DocumentUpdate(u.deep_view())]),
{
    reveal_with_fuel(spec_split_root, 2);
    reveal_with_fuel(spec_decode_all, 2);
    <DocumentUpdate<NooID, NooID> as CBORTransform>::lemma_round_trip(u);
    let content = DocumentUpdate::<NooID, NooID>::encode_spec(u.deep_view());
    let s = seq![ValueModel::Integer(ServerMessages::MsgDocumentUpdate.spec_to_u32() as int), content];
    assert(s.subrange(2, s.len() as int) =~= Seq::<ValueModel>::empty());
    let l = seq![(ServerMessages::MsgDocumentUpdate, content)];
    assert(seq![(ServerMessages::MsgDocumentUpdate, content)] + Seq::<(ServerMessages, ValueModel)>::empty() =~= l);
    assert(l.drop_last() =~= Seq::<(ServerMessages, ValueModel)>::empty());
    assert(Seq::<FromServerModel>::empty().push(FromServerModel::DocumentUpdate(u.deep_view())) =~= seq![FromServerModel::DocumentUpdate(u.deep_view())]);
}

/// The end of the state a server sends a joining client: the document's
/// methods and signals, then the message that the document is complete.
pub open spec fn spec_document_tail(comm: DocumentUpdateModel) -> Seq<ValueModel> {
    seq![
        ValueModel::Integer(ServerMessages::MsgDocumentUpdate.spec_to_u32() as int),
        DocumentUpdate::<NooID, NooID>::encode_spec(comm),
        ValueModel::Integer(ServerMessages::MsgDocumentInitialized.spec_to_u32() as int),
        ValueModel::Dict(seq![(ValueModel::Text("v"@), ValueModel::Bool(true))]),
    ]
}

/// The end of the state a server sends a joining client, as pack entries.
pub fn document_tail(comm: &DocumentUpdate<NooID, NooID>) -> (r: Vec<CborValue>)
    ensures
        crate::value::models_of(r@) == spec_document_tail(comm.deep_view()),
{
    let mut dummy: Vec<(CborValue, CborValue)> = Vec::new();
    push_pair(&mut dummy, "v", CborValue::Bool(true));
    assert(pair_models_of(dummy@) =~= seq![(ValueModel::Text("v"@), ValueModel::Bool(true))]);
    let out = vec![
        CborValue::Integer(ServerMessages::MsgDocumentUpdate.to_u32() as i128),
        comm.to_cbor(),
        CborValue::Integer(ServerMessages::MsgDocumentInitialized.to_u32() as i128),
        CborValue::Dict(dummy),
    ];
    proof {
        crate::value::lemma_models_of(out@);
    }
    assert(crate::value::models_of(out@) =~= spec_document_tail(comm.deep_view()));
    out
}

} // verus!
