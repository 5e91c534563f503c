//! A client delegate for a server table: it subscribes, asks the server to
//! change the table, and keeps the client's storage of the table in step.
use vstd::prelude::*;
use std::collections::HashMap;
use crate::nooid::NooID;
use crate::value::{CborValue, ValueModel, models_of, lemma_models_of};
use crate::value_tools::CBORTransform;
use crate::table::{Selection, TableInitData, TableInitDataModel};
use crate::client_table::TableDataStorage;
use crate::client_state::{ComponentList, Delegate, InvokeContext};
use crate::client_components::OutgoingMessage;
use crate::client_dispatch::{ClientDelegateLists, ClientState, UpdatableDelegate, DelegateMaker, DocumentDelegate};
use crate::server_communication::MessageMethodReply;
use crate::message_codec::MessageMethodReplyModel;
use crate::table_protocol::{
    on_signal_fallible, table_signal_reads, table_signal_applied, MTHD_TBL_SUBSCRIBE, MTHD_TBL_INSERT, MTHD_TBL_UPDATE, MTHD_TBL_REMOVE, MTHD_TBL_CLEAR,
    MTHD_TBL_UPDATE_SELECTION, SIG_TBL_RESET, SIG_TBL_UPDATED, SIG_TBL_ROWS_REMOVED, SIG_TBL_SELECTION_UPDATED,
};

verus! {

broadcast use vstd::std_specs::hash::group_hash_axioms;

/// The method announced under a name, if any.
pub open spec fn method_named<D, Doc>(state: &ClientDelegateLists<D, Doc>, name: Seq<char>) -> Option<NooID> {
    if state.method_list.model().names.contains_key(name) {
        Some(state.method_list.model().names[name])
    } else {
        None
    }
}

/// The signal announced under a name, if any.
pub open spec fn signal_named<D, Doc>(state: &ClientDelegateLists<D, Doc>, name: Seq<char>) -> Option<NooID> {
    if state.signal_list.model().names.contains_key(name) {
        Some(state.signal_list.model().names[name])
    } else {
        None
    }
}

/// The table reset signal.
pub fn sig_reset<D, Doc>(state: &ClientDelegateLists<D, Doc>) -> (r: Option<NooID>)
    requires
        state.wf(),
    ensures
        r == signal_named(state, SIG_TBL_RESET@),
{
    state.signal_list.get_id_by_name(SIG_TBL_RESET)
}

/// The table updated signal.
pub fn sig_updated<D, Doc>(state: &ClientDelegateLists<D, Doc>) -> (r: Option<NooID>)
    requires
        state.wf(),
    ensures
        r == signal_named(state, SIG_TBL_UPDATED@),
{
    state.signal_list.get_id_by_name(SIG_TBL_UPDATED)
}

/// The table rows removed signal.
pub fn sig_row_remove<D, Doc>(state: &ClientDelegateLists<D, Doc>) -> (r: Option<NooID>)
    requires
        state.wf(),
    ensures
        r == signal_named(state, SIG_TBL_ROWS_REMOVED@),
{
    state.signal_list.get_id_by_name(SIG_TBL_ROWS_REMOVED)
}

/// The table selection updated signal.
pub fn sig_selection_update<D, Doc>(state: &ClientDelegateLists<D, Doc>) -> (r: Option<NooID>)
    requires
        state.wf(),
    ensures
        r == signal_named(state, SIG_TBL_SELECTION_UPDATED@),
{
    state.signal_list.get_id_by_name(SIG_TBL_SELECTION_UPDATED)
}

/// The table subscribe method.
pub fn mthd_subscribe<D, Doc>(state: &ClientDelegateLists<D, Doc>) -> (r: Option<NooID>)
    requires
        state.wf(),
    ensures
        r == method_named(state, MTHD_TBL_SUBSCRIBE@),
{
    state.method_list.get_id_by_name(MTHD_TBL_SUBSCRIBE)
}

/// The table insert method.
pub fn mthd_insert<D, Doc>(state: &ClientDelegateLists<D, Doc>) -> (r: Option<NooID>)
    requires
        state.wf(),
    ensures
        r == method_named(state, MTHD_TBL_INSERT@),
{
    state.method_list.get_id_by_name(MTHD_TBL_INSERT)
}

/// The table update method.
pub fn mthd_update<D, Doc>(state: &ClientDelegateLists<D, Doc>) -> (r: Option<NooID>)
    requires
        state.wf(),
    ensures
        r == method_named(state, MTHD_TBL_UPDATE@),
{
    state.method_list.get_id_by_name(MTHD_TBL_UPDATE)
}

/// The table remove method.
pub fn mthd_remove<D, Doc>(state: &ClientDelegateLists<D, Doc>) -> (r: Option<NooID>)
    requires
        state.wf(),
    ensures
        r == method_named(state, MTHD_TBL_REMOVE@),
{
    state.method_list.get_id_by_name(MTHD_TBL_REMOVE)
}

/// The table clear method.
pub fn mthd_clear<D, Doc>(state: &ClientDelegateLists<D, Doc>) -> (r: Option<NooID>)
    requires
        state.wf(),
    ensures
        r == method_named(state, MTHD_TBL_CLEAR@),
{
    state.method_list.get_id_by_name(MTHD_TBL_CLEAR)
}

/// The table update selection method.
pub fn mthd_update_selection<D, Doc>(state: &ClientDelegateLists<D, Doc>) -> (r: Option<NooID>)
    requires
        state.wf(),
    ensures
        r == method_named(state, MTHD_TBL_UPDATE_SELECTION@),
{
    state.method_list.get_id_by_name(MTHD_TBL_UPDATE_SELECTION)
}

// =============================================================================

/// What a table delegate waits for a reply to.
#[derive(Debug, Clone, Copy, PartialEq, Eq, Structural)]
pub enum TableAction {
    Subreply,
}

/// Table data with no columns, rows or selections.
pub open spec fn empty_init_data() -> TableInitDataModel {
    TableInitDataModel { columns: Seq::empty(), keys: Seq::empty(), data: Seq::empty(), selections: None }
}

/// The table data a reply to a subscription carries: what its result reads
/// as, or no data when it does not read.
pub open spec fn sub_reply_init(result: ValueModel) -> TableInitDataModel {
    match TableInitData::decode_spec(result) {
        Ok(m) => m,
        Err(_) => empty_init_data(),
    }
}

/// A delegate with convenience functions for subscription, adding, deleting,
/// and updating data.
pub struct AdvTableDelegate<T> {
    table_id: NooID,
    table: Option<T>,
    method_subs: HashMap<u128, TableAction>,
}

/// The state a method invocation changes: the pending invocations gain the
/// new one, and nothing else changes.
pub open spec fn invoked<D, Doc, M>(
    old: ClientState<D, Doc, M>,
    new: ClientState<D, Doc, M>,
    r: (u128, OutgoingMessage),
    method: NooID,
    context: InvokeContext,
    args: Seq<ValueModel>,
) -> bool {
    &&& new.delegate_lists == old.delegate_lists
    &&& new.maker == old.maker
    &&& new.method_subs.view_map() == old.method_subs.view_map().insert(r.0, context)
    &&& r.1 matches OutgoingMessage::MethodInvoke(msg) && {
        &&& msg.method == method
        &&& msg.context == crate::client_state::spec_invoke_target(context)
        &&& models_of(msg.args@) == args
    }
}

impl<T: TableDataStorage> AdvTableDelegate<T> {
    /// The table this delegate stands for.
    pub closed spec fn table_id_spec(&self) -> NooID {
        self.table_id
    }

    /// The storage of the table, once subscribed.
    pub closed spec fn table_spec(&self) -> Option<T> {
        self.table
    }

    /// The invocations whose replies the delegate waits for.
    pub closed spec fn pending_spec(&self) -> Map<u128, TableAction> {
        self.method_subs@
    }

    /// A delegate for a table, not yet subscribed.
    pub fn new(id: NooID) -> (r: Self)
        ensures
            r.table_id_spec() == id,
            r.table_spec() is None,
            r.pending_spec() == Map::<u128, TableAction>::empty(),
    {
        AdvTableDelegate { table_id: id, table: None, method_subs: HashMap::new() }
    }

    /// The storage of the table, once subscribed.
    pub fn table(&self) -> (r: Option<&T>)
        ensures
            match r {
                Some(t) => self.table_spec() == Some(*t),
                None => self.table_spec() is None,
            },
    {
        match &self.table {
            Some(t) => Some(t),
            None => None,
        }
    }

    /// Subscribe to this table: the storage is kept, and the reply to the
    /// subscription will initialize it.
    pub fn subscribe<D: UpdatableDelegate, Doc: DocumentDelegate, M: DelegateMaker<D, Doc>>(
        &mut self,
        client: &mut ClientState<D, Doc, M>,
        table: T,
    ) -> (r: (u128, OutgoingMessage))
        requires
            old(client).wf(),
            method_named(&old(client).delegate_lists, MTHD_TBL_SUBSCRIBE@) is Some,
        ensures
            invoked(*old(client), *final(client), r, method_named(&old(client).delegate_lists, MTHD_TBL_SUBSCRIBE@)->Some_0,
                InvokeContext::Table(old(self).table_id_spec()), Seq::empty()),
            final(self).table_spec() == Some(table),
            final(self).table_id_spec() == old(self).table_id_spec(),
            final(self).pending_spec() == old(self).pending_spec().insert(r.0, TableAction::Subreply),
    {
        self.table = Some(table);
        let method = mthd_subscribe(&client.delegate_lists).unwrap();
        let r = client.invoke_method(method, InvokeContext::Table(self.table_id), Vec::new());
        assert(models_of(Seq::<CborValue>::empty()) =~= Seq::<ValueModel>::empty());
        self.method_subs.insert(r.0, TableAction::Subreply);
        r
    }

    /// Ask to insert rows into the remote table.
    pub fn ask_insert<D: UpdatableDelegate, Doc: DocumentDelegate, M: DelegateMaker<D, Doc>>(
        &self,
        client: &mut ClientState<D, Doc, M>,
        rows: Vec<Vec<CborValue>>,
    ) -> (r: (u128, OutgoingMessage))
        requires
            old(client).wf(),
            method_named(&old(client).delegate_lists, MTHD_TBL_INSERT@) is Some,
        ensures
            invoked(*old(client), *final(client), r, method_named(&old(client).delegate_lists, MTHD_TBL_INSERT@)->Some_0,
                InvokeContext::Table(self.table_id_spec()), seq![<Vec<Vec<CborValue>> as CBORTransform>::encode_spec(rows.deep_view())]),
    {
        let method = mthd_insert(&client.delegate_lists).unwrap();
        let args = vec![rows.to_cbor()];
        proof {
            lemma_models_of(args@);
        }
        assert(models_of(args@) =~= seq![<Vec<Vec<CborValue>> as CBORTransform>::encode_spec(rows.deep_view())]);
        client.invoke_method(method, InvokeContext::Table(self.table_id), args)
    }

    /// Ask to update rows of the remote table, by key.
    pub fn ask_update<D: UpdatableDelegate, Doc: DocumentDelegate, M: DelegateMaker<D, Doc>>(
        &self,
        client: &mut ClientState<D, Doc, M>,
        keys: Vec<i64>,
        rows: Vec<Vec<CborValue>>,
    ) -> (r: (u128, OutgoingMessage))
        requires
            old(client).wf(),
            method_named(&old(client).delegate_lists, MTHD_TBL_UPDATE@) is Some,
        ensures
            invoked(*old(client), *final(client), r, method_named(&old(client).delegate_lists, MTHD_TBL_UPDATE@)->Some_0,
                InvokeContext::Table(self.table_id_spec()), seq![
                    <Vec<i64> as CBORTransform>::encode_spec(keys.deep_view()),
                    <Vec<Vec<CborValue>> as CBORTransform>::encode_spec(rows.deep_view()),
                ]),
    {
        let method = mthd_update(&client.delegate_lists).unwrap();
        let args = vec![keys.to_cbor(), rows.to_cbor()];
        proof {
            lemma_models_of(args@);
        }
        assert(models_of(args@) =~= seq![
            <Vec<i64> as CBORTransform>::encode_spec(keys.deep_view()),
            <Vec<Vec<CborValue>> as CBORTransform>::encode_spec(rows.deep_view()),
        ]);
        client.invoke_method(method, InvokeContext::Table(self.table_id), args)
    }

    /// Ask to remove rows of the remote table, by key.
    pub fn ask_remove<D: UpdatableDelegate, Doc: DocumentDelegate, M: DelegateMaker<D, Doc>>(
        &self,
        client: &mut ClientState<D, Doc, M>,
        keys: Vec<i64>,
    ) -> (r: (u128, OutgoingMessage))
        requires
            old(client).wf(),
            method_named(&old(client).delegate_lists, MTHD_TBL_REMOVE@) is Some,
        ensures
            invoked(*old(client), *final(client), r, method_named(&old(client).delegate_lists, MTHD_TBL_REMOVE@)->Some_0,
                InvokeContext::Table(self.table_id_spec()), seq![<Vec<i64> as CBORTransform>::encode_spec(keys.deep_view())]),
    {
        let method = mthd_remove(&client.delegate_lists).unwrap();
        let args = vec![keys.to_cbor()];
        proof {
            lemma_models_of(args@);
        }
        assert(models_of(args@) =~= seq![<Vec<i64> as CBORTransform>::encode_spec(keys.deep_view())]);
        client.invoke_method(method, InvokeContext::Table(self.table_id), args)
    }

    /// Ask to clear the remote table.
    pub fn ask_clear<D: UpdatableDelegate, Doc: DocumentDelegate, M: DelegateMaker<D, Doc>>(
        &self,
        client: &mut ClientState<D, Doc, M>,
    ) -> (r: (u128, OutgoingMessage))
        requires
            old(client).wf(),
            method_named(&old(client).delegate_lists, MTHD_TBL_CLEAR@) is Some,
        ensures
            invoked(*old(client), *final(client), r, method_named(&old(client).delegate_lists, MTHD_TBL_CLEAR@)->Some_0,
                InvokeContext::Table(self.table_id_spec()), Seq::empty()),
    {
        let method = mthd_clear(&client.delegate_lists).unwrap();
        let args: Vec<CborValue> = Vec::new();
        proof {
            lemma_models_of(args@);
        }
        assert(models_of(args@) =~= Seq::<ValueModel>::empty());
        client.invoke_method(method, InvokeContext::Table(self.table_id), args)
    }

    /// Ask to update a selection of the remote table.
    pub fn ask_update_selection<D: UpdatableDelegate, Doc: DocumentDelegate, M: DelegateMaker<D, Doc>>(
        &self,
        client: &mut ClientState<D, Doc, M>,
        selection: Selection,
    ) -> (r: (u128, OutgoingMessage))
        requires
            old(client).wf(),
            method_named(&old(client).delegate_lists, MTHD_TBL_UPDATE_SELECTION@) is Some,
        ensures
            invoked(*old(client), *final(client), r, method_named(&old(client).delegate_lists, MTHD_TBL_UPDATE_SELECTION@)->Some_0,
                InvokeContext::Table(self.table_id_spec()), seq![Selection::encode_spec(selection.deep_view())]),
    {
        let method = mthd_update_selection(&client.delegate_lists).unwrap();
        let args = vec![selection.to_cbor()];
        proof {
            lemma_models_of(args@);
        }
        assert(models_of(args@) =~= seq![Selection::encode_spec(selection.deep_view())]);
        client.invoke_method(method, InvokeContext::Table(self.table_id), args)
    }

    /// The reply to the subscription initializes the table's storage; a
    /// reply whose result does not read as table data initializes it empty.
    fn on_sub_reply(&mut self, reply: MessageMethodReply) -> (r: Option<()>)
        ensures
            r is Some == reply.result is Some,
            final(self).table_id_spec() == old(self).table_id_spec(),
            final(self).pending_spec() == old(self).pending_spec(),
            reply.result is None || old(self).table_spec() is None ==> final(self).table_spec() == old(self).table_spec(),
            final(self).table_spec() is Some == old(self).table_spec() is Some,
            (reply.result is Some && old(self).table_spec() is Some) ==> (final(self).table_spec() matches Some(t2)
                && old(self).table_spec()->Some_0.initialized(t2, sub_reply_init(reply.result->Some_0@))),
    {
        let result = reply.result?;
        let ghost rm = result@;
        let init_data = match TableInitData::try_from_cbor(result) {
            Ok(d) => d,
            Err(_) => {
                let d = TableInitData::default();
                assert(d.deep_view().columns =~= Seq::<crate::table::TableColumnInfoModel>::empty());
                assert(d.deep_view().keys =~= Seq::<i64>::empty());
                assert(d.deep_view().data =~= Seq::<Seq<ValueModel>>::empty());
                assert(d.deep_view() == empty_init_data());
                d
            },
        };
        assert(init_data.deep_view() == sub_reply_init(rm));
        match &mut self.table {
            Some(t) => t.on_init_data(init_data),
            None => {},
        }
        Some(())
    }
}

impl<T: TableDataStorage> Delegate for AdvTableDelegate<T> {
    fn on_delete(&mut self) {
    }
}

impl<T: TableDataStorage> UpdatableDelegate for AdvTableDelegate<T> {
    /// An update changes nothing of a table delegate.
    closed spec fn updated_with(self, next: Self, state: ValueModel) -> bool {
        next == self
    }

    /// A table signal that reads is applied to the storage of a subscribed
    /// table; one that does not read leaves it as it is.
    closed spec fn signalled_with(self, next: Self, id: NooID, signal_names: Map<Seq<char>, NooID>, args: Seq<ValueModel>) -> bool {
        &&& next.table_id == self.table_id
        &&& next.method_subs == self.method_subs
        &&& match self.table {
            None => next.table is None,
            Some(t) => next.table matches Some(t2) && if table_signal_reads(id, signal_names, args) {
                table_signal_applied(t, t2, id, signal_names, args)
            } else {
                t2 == t
            },
        }
    }

    /// A reply is no longer waited for; the reply to a subscription
    /// initializes the storage of the table with the data it carries.
    closed spec fn replied_with(self, next: Self, invoke_id: u128, reply: MessageMethodReplyModel) -> bool {
        &&& next.table_id == self.table_id
        &&& next.method_subs@ == self.method_subs@.remove(invoke_id)
        &&& if self.method_subs@.contains_key(invoke_id) && reply.result is Some && self.table is Some {
            next.table matches Some(t2) && self.table->Some_0.initialized(t2, sub_reply_init(reply.result->Some_0))
        } else {
            next.table == self.table
        }
    }

    fn on_update(&mut self, state: CborValue) {
    }

    fn on_signal(&mut self, id: NooID, signals: &ComponentList<Self>, args: Vec<CborValue>) {
        let _ = on_signal_fallible(&mut self.table, id, signals, args);
    }

    fn on_method_reply(&mut self, invoke_id: u128, reply: MessageMethodReply) {
        let ghost old_self = *self;
        match self.method_subs.remove(&invoke_id) {
            Some(TableAction::Subreply) => {
                let ghost before = *self;
                let _ = self.on_sub_reply(reply);
                proof {
                    assert(before.table == old_self.table);
                }
            },
            None => {},
        }
    }
}

} // verus!
