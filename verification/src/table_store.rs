//! A table a server shares: the table methods and signals attached to its
//! component, the clients that follow it, and the answers to their calls.
use vstd::prelude::*;
use crate::nooid::NooID;
use crate::value::{CborValue, ValueModel, models_of};
use crate::value_tools::CBORTransform;
use crate::common::ServerMessages;
use crate::components::{TableState, TableStateUpdatable, UpdatableWith, ComponentMessageIDs};
use crate::component_list::ServerComponentList;
use crate::component_codec::FieldWriter;
use crate::announce::{spec_record, spec_created, signal_record};
use crate::server_state::update_component;
use crate::server_communication::{SignalInvokeObj, MessageSignalInvoke, MethodException};
use crate::message_codec::MessageSignalInvokeModel;
use crate::server_table::{TableTrait, rows_outcome, keys_outcome, deep_outcome};
use crate::table::{Selection, SelectionModel, TableInitData, TableInitDataModel};
use crate::invoke::InvokeObj;
use crate::table_protocol::{TableSystemInit, TableCall, TableMethodKind, spec_arg_one, spec_arg_two, decode_table_call, translate_return, is_bad_table_method, is_invalid_parameters};

verus! {

/// `acc` followed by each identifier of `extra` that is not yet among them.
pub open spec fn add_missing(acc: Seq<NooID>, extra: Seq<NooID>) -> Seq<NooID>
    decreases extra.len(),
{
    if extra.len() == 0 {
        acc
    } else {
        let before = add_missing(acc, extra.drop_last());
        if before.contains(extra.last()) {
            before
        } else {
            before.push(extra.last())
        }
    }
}

/// The identifiers of an optional list, then those of `extra`, each once.
pub open spec fn merged_ids(existing: Option<Seq<NooID>>, extra: Seq<NooID>) -> Seq<NooID> {
    add_missing(Seq::empty(), match existing { Some(s) => s, None => Seq::empty() } + extra)
}

/// Adding the missing identifiers keeps every identifier once, and gives
/// exactly the identifiers of both.
pub proof fn lemma_add_missing(acc: Seq<NooID>, extra: Seq<NooID>)
    requires
        acc.no_duplicates(),
    ensures
        add_missing(acc, extra).no_duplicates(),
        forall|x: NooID| add_missing(acc, extra).contains(x) <==> (acc.contains(x) || extra.contains(x)),
    decreases extra.len(),
{
    if extra.len() > 0 {
        lemma_add_missing(acc, extra.drop_last());
        let before = add_missing(acc, extra.drop_last());
        assert forall|x: NooID| add_missing(acc, extra).contains(x) <==> (acc.contains(x) || extra.contains(x)) by {
            if extra.contains(x) && !extra.drop_last().contains(x) {
                let i = choose|i: int| 0 <= i < extra.len() && extra[i] == x;
                if i < extra.len() - 1 {
                    assert(extra.drop_last()[i] == x);
                }
                if !before.contains(x) {
                    assert(before.push(x)[before.len() as int] == x);
                }
            }
            if extra.drop_last().contains(x) {
                let i = choose|i: int| 0 <= i < extra.len() - 1 && extra.drop_last()[i] == x;
                assert(extra[i] == x);
            }
            if add_missing(acc, extra).contains(x) && !before.contains(x) {
                let i = choose|i: int| 0 <= i < add_missing(acc, extra).len() && add_missing(acc, extra)[i] == x;
                assert(i == before.len());
                assert(extra[extra.len() - 1] == x);
            }
            if before.contains(x) {
                let i = choose|i: int| 0 <= i < before.len() && before[i] == x;
                if !before.contains(extra.last()) {
                    assert(before.push(extra.last())[i] == x);
                }
            }
        }
    }
}

fn ids_contain(v: &Vec<NooID>, id: NooID) -> (r: bool)
    ensures
        r == v@.contains(id),
{
    let mut i: usize = 0;
    while i < v.len()
        invariant
            i <= v@.len(),
            forall|j: int| 0 <= j < i ==> v@[j] != id,
        decreases v.len() - i,
    {
        if v[i] == id {
            assert(v@[i as int] == id);
            return true;
        }
        i = i + 1;
    }
    false
}

/// Append each identifier of `extra` that `out` does not hold yet.
fn push_missing(out: &mut Vec<NooID>, extra: &Vec<NooID>)
    ensures
        final(out)@ == add_missing(old(out)@, extra@),
{
    let ghost start = out@;
    let mut i: usize = 0;
    while i < extra.len()
        invariant
            i <= extra@.len(),
            out@ == add_missing(start, extra@.take(i as int)),
        decreases extra.len() - i,
    {
        let id = extra[i];
        assert(extra@.take(i + 1).drop_last() =~= extra@.take(i as int));
        if !ids_contain(out, id) {
            out.push(id);
        }
        i = i + 1;
    }
    assert(extra@.take(extra@.len() as int) =~= extra@);
}

/// Adding `a + b` is adding `a`, then adding `b`.
proof fn lemma_add_missing_concat(acc: Seq<NooID>, a: Seq<NooID>, b: Seq<NooID>)
    ensures
        add_missing(acc, a + b) == add_missing(add_missing(acc, a), b),
    decreases b.len(),
{
    if b.len() == 0 {
        assert(a + b =~= a);
    } else {
        lemma_add_missing_concat(acc, a, b.drop_last());
        assert((a + b).drop_last() =~= a + b.drop_last());
        assert((a + b).last() == b.last());
    }
}

/// The identifiers of an optional list, then those of `extra`, each once.
fn merge_ids(existing: &Option<Vec<NooID>>, extra: &Vec<NooID>) -> (r: Vec<NooID>)
    ensures
        r@ == merged_ids(opt_view(*existing), extra@),
{
    let mut out: Vec<NooID> = Vec::new();
    let ghost first = match existing { Some(v) => v@, None => Seq::<NooID>::empty() };
    match existing {
        Some(v) => push_missing(&mut out, v),
        None => {},
    }
    assert(out@ == add_missing(Seq::empty(), first)) by {
        if existing is None {
            assert(out@ =~= Seq::<NooID>::empty());
        }
    }
    push_missing(&mut out, extra);
    proof {
        lemma_add_missing_concat(Seq::empty(), first, extra@);
    }
    out
}

impl TableSystemInit {
    fn method_ids(&self) -> (r: Vec<NooID>)
        ensures
            r@ == self.spec_methods(),
    {
        let r = vec![self.mthd_subscribe, self.mthd_insert, self.mthd_update, self.mthd_remove, self.mthd_clear, self.mthd_update_selection];
        assert(r@ =~= self.spec_methods());
        r
    }

    fn signal_ids(&self) -> (r: Vec<NooID>)
        ensures
            r@ == self.spec_signals(),
    {
        let r = vec![self.sig_reset, self.sig_updated, self.sig_row_remove, self.sig_selection_update];
        assert(r@ =~= self.spec_signals());
        r
    }

    /// Attach the table methods and signals to a live table, keeping those
    /// it lists already, and tell every client of the change. A table that
    /// is not live is left alone.
    pub fn attach(
        &self,
        tables: &mut ServerComponentList<TableState<NooID, NooID>>,
        broadcast: &mut Vec<CborValue>,
        table: NooID,
    ) -> (r: bool)
        requires
            old(tables).wf(),
        ensures
            final(tables).wf(),
            final(tables).model().order == old(tables).model().order,
            final(tables).model().free == old(tables).model().free,
            r == old(tables).model().items.contains_key(table),
            !r ==> final(tables).model().items == old(tables).model().items && final(broadcast)@ == old(broadcast)@,
            r ==> {
                let t = old(tables).model().items[table];
                let n = final(tables).model().items[table];
                &&& final(tables).model().items == old(tables).model().items.insert(table, n)
                &&& n.name == t.name
                &&& n.mutable.meta == t.mutable.meta
                &&& n.mutable.methods_list matches Some(ml) && ml@ == merged_ids(opt_view(t.mutable.methods_list), self.spec_methods())
                &&& n.mutable.signals_list matches Some(sl) && sl@ == merged_ids(opt_view(t.mutable.signals_list), self.spec_signals())
                &&& models_of(final(broadcast)@) == models_of(old(broadcast)@).push(
                    spec_record(
                        ServerMessages::MsgTableUpdate,
                        spec_created::<TableStateUpdatable<NooID, NooID>>(
                            table,
                            crate::state_codec::TableStateUpdatableModel {
                                meta: None,
                                methods_list: Some(n.mutable.methods_list->Some_0@),
                                signals_list: Some(n.mutable.signals_list->Some_0@),
                            },
                        ),
                    ),
                )
            },
    {
        let (methods, signals) = match tables.get_data(table) {
            None => return false,
            Some(t) => (merge_ids(&t.mutable.methods_list, &self.method_ids()), merge_ids(&t.mutable.signals_list, &self.signal_ids())),
        };
        let ghost mv = methods@;
        let ghost sv = signals@;
        let update = TableStateUpdatable { meta: None, methods_list: Some(methods), signals_list: Some(signals) };
        proof {
            assert(update.methods_list->Some_0.deep_view() =~= mv);
            assert(update.signals_list->Some_0.deep_view() =~= sv);
        }
        update_component(tables, broadcast, table, update)
    }
}

/// The view of an optional list of identifiers.
pub open spec fn opt_view(o: Option<Vec<NooID>>) -> Option<Seq<NooID>> {
    match o {
        Some(v) => Some(v@),
        None => None,
    }
}

// =============================================================================

/// The signal message a shared table sends the clients that follow it.
pub open spec fn spec_table_signal(table: NooID, signal: NooID, args: Seq<ValueModel>) -> ValueModel {
    spec_record(
        ServerMessages::MsgSignalInvoke,
        MessageSignalInvoke::<NooID, NooID, NooID>::encode_spec(MessageSignalInvokeModel {
            id: signal,
            context: Some(SignalInvokeObj { entity: None, table: Some(table), plot: None }),
            signal_data: args,
        }),
    )
}

/// The arguments of the signal that new or changed rows raise.
pub open spec fn rows_args(keys: Seq<i64>, rows: Seq<Seq<ValueModel>>) -> Seq<ValueModel> {
    seq![<Vec<i64> as CBORTransform>::encode_spec(keys), <Vec<Vec<CborValue>> as CBORTransform>::encode_spec(rows)]
}

/// The message for the followers of a table after a call that gave `out`:
/// none when the call failed, else the signal with the keys and rows.
pub open spec fn rows_signal_for(
    r: Option<CborValue>,
    table: NooID,
    signal: NooID,
    out: Option<(Seq<i64>, Seq<Seq<ValueModel>>)>,
) -> bool {
    match out {
        None => r is None,
        Some((k, rs)) => r matches Some(v) && v@ == spec_table_signal(table, signal, rows_args(k, rs)),
    }
}

/// What answering a call to a table does to it, for the table method the
/// call names: the table changes as its own relation for that operation
/// says, with the rows, keys or selection the arguments hold; the followers
/// are sent that operation's message when the table accepted it; the caller
/// is answered with success exactly then; the subscribers stay.
pub open spec fn call_applied<T: TableTrait>(
    old: TableStore<T>,
    new: TableStore<T>,
    method: NooID,
    args: Seq<ValueModel>,
    r: (Result<Option<CborValue>, MethodException>, Option<CborValue>),
) -> bool {
    match old.init_info.method_kind(method) {
        TableMethodKind::Insert => {
            let rows = crate::value_tools::decoded_successes::<Vec<CborValue>>(args);
            &&& new.subscribers == old.subscribers
            &&& (r.0 matches Ok(None) <==> r.1 is Some)
            &&& !old.table_type.insert_within_bounds(rows.len()) ==> r.1 is None && new.table_type == old.table_type
            &&& old.table_type.insert_within_bounds(rows.len()) ==> exists|out: Option<(Seq<i64>, Seq<Seq<ValueModel>>)>| {
                &&& #[trigger] old.table_type.inserted(new.table_type, rows, out)
                &&& rows_signal_for(r.1, old.table_id, old.init_info.sig_updated, out)
            }
        },
        TableMethodKind::Update => match spec_arg_two::<Vec<i64>, Vec<Vec<CborValue>>>(args) {
            Some((keys, rows)) => {
                &&& new.subscribers == old.subscribers
                &&& (r.0 matches Ok(None) <==> r.1 is Some)
                &&& exists|out: Option<(Seq<i64>, Seq<Seq<ValueModel>>)>| {
                    &&& #[trigger] old.table_type.rows_changed(new.table_type, keys, rows, out)
                    &&& rows_signal_for(r.1, old.table_id, old.init_info.sig_updated, out)
                }
            },
            None => new == old && r.1 is None && (r.0 matches Err(e) && is_invalid_parameters(e)),
        },
        TableMethodKind::Remove => match spec_arg_one::<Vec<i64>>(args) {
            Some(keys) => {
                &&& new.subscribers == old.subscribers
                &&& (r.0 matches Ok(None) <==> r.1 is Some)
                &&& exists|out: Option<Seq<i64>>| {
                    &&& #[trigger] old.table_type.rows_removed(new.table_type, keys, out)
                    &&& match out {
                        None => r.1 is None,
                        Some(k) => r.1 matches Some(v) && v@ == spec_table_signal(
                            old.table_id,
                            old.init_info.sig_row_remove,
                            seq![<Vec<i64> as CBORTransform>::encode_spec(k)],
                        ),
                    }
                }
            },
            None => new == old && r.1 is None && (r.0 matches Err(e) && is_invalid_parameters(e)),
        },
        TableMethodKind::Clear => {
            &&& new.subscribers == old.subscribers
            &&& (r.0 matches Ok(None) <==> r.1 is Some)
            &&& exists|out: Option<TableInitDataModel>| {
                &&& #[trigger] old.table_type.cleared_to(new.table_type, out)
                &&& match out {
                    None => r.1 is None,
                    Some(d) => r.1 matches Some(v) && v@ == spec_table_signal(
                        old.table_id,
                        old.init_info.sig_reset,
                        seq![TableInitData::encode_spec(d)],
                    ),
                }
            }
        },
        TableMethodKind::UpdateSelection => match spec_arg_one::<Selection>(args) {
            Some(sel) => {
                &&& new.subscribers == old.subscribers
                &&& (r.0 matches Ok(None) <==> r.1 is Some)
                &&& exists|out: Option<SelectionModel>| {
                    &&& #[trigger] old.table_type.selection_changed(new.table_type, sel, out)
                    &&& match out {
                        None => r.1 is None,
                        Some(x) => r.1 matches Some(v) && v@ == spec_table_signal(
                            old.table_id,
                            old.init_info.sig_selection_update,
                            seq![Selection::encode_spec(x)],
                        ),
                    }
                }
            },
            None => new == old && r.1 is None && (r.0 matches Err(e) && is_invalid_parameters(e)),
        },
        TableMethodKind::Subscribe => new.table_type == old.table_type && r.1 is None,
        TableMethodKind::NotATableMethod => new == old && r.1 is None,
    }
}

/// A table a server shares: the identifiers of the table methods and
/// signals, the table component, the table's data, and the clients that
/// follow it, each once, in the order they subscribed.
pub struct TableStore<T> {
    pub init_info: TableSystemInit,
    pub table_id: NooID,
    pub table_type: T,
    pub subscribers: Vec<u128>,
}

impl<T: TableTrait> TableStore<T> {
    /// Attach the table methods and signals to the table component and
    /// share the table, with no client following it yet.
    pub fn new(
        tables: &mut ServerComponentList<TableState<NooID, NooID>>,
        broadcast: &mut Vec<CborValue>,
        init: TableSystemInit,
        table_id: NooID,
        table: T,
    ) -> (r: Self)
        requires
            old(tables).wf(),
        ensures
            final(tables).wf(),
            final(tables).model().order == old(tables).model().order,
            final(tables).model().free == old(tables).model().free,
            r.init_info == init,
            r.table_id == table_id,
            r.table_type == table,
            r.subscribers@.len() == 0,
            old(tables).model().items.contains_key(table_id) ==> {
                let n = final(tables).model().items[table_id];
                &&& n.mutable.methods_list matches Some(ml) && ml@ == merged_ids(
                    opt_view(old(tables).model().items[table_id].mutable.methods_list),
                    init.spec_methods(),
                )
                &&& n.mutable.signals_list matches Some(sl) && sl@ == merged_ids(
                    opt_view(old(tables).model().items[table_id].mutable.signals_list),
                    init.spec_signals(),
                )
            },
    {
        init.attach(tables, broadcast, table_id);
        TableStore { init_info: init, table_id, table_type: table, subscribers: Vec::new() }
    }

    /// Follow the table for a client, and give the table's data.
    pub fn subscribe(&mut self, id: u128) -> (r: TableInitData)
        requires
            old(self).subscribers@.no_duplicates(),
        ensures
            final(self).subscribers@.no_duplicates(),
            final(self).subscribers@.contains(id),
            old(self).subscribers@.contains(id) ==> final(self).subscribers@ == old(self).subscribers@,
            !old(self).subscribers@.contains(id) ==> final(self).subscribers@ == old(self).subscribers@.push(id),
            final(self).init_info == old(self).init_info,
            final(self).table_id == old(self).table_id,
            final(self).table_type == old(self).table_type,
    {
        let mut found = false;
        let mut i: usize = 0;
        while i < self.subscribers.len()
            invariant
                i <= self.subscribers@.len(),
                found == (exists|j: int| 0 <= j < i && self.subscribers@[j] == id),
            decreases self.subscribers.len() - i,
        {
            if self.subscribers[i] == id {
                found = true;
            }
            i = i + 1;
        }
        if !found {
            let ghost before = self.subscribers@;
            self.subscribers.push(id);
            assert(self.subscribers@[before.len() as int] == id);
        } else {
            proof {
                let j = choose|j: int| 0 <= j < self.subscribers@.len() && self.subscribers@[j] == id;
                assert(self.subscribers@.contains(id));
            }
        }
        self.table_type.get_init_data()
    }

    /// Stop following the table for a client.
    pub fn forget_client(&mut self, id: u128)
        requires
            old(self).subscribers@.no_duplicates(),
        ensures
            final(self).subscribers@.no_duplicates(),
            forall|x: u128| final(self).subscribers@.contains(x) <==> (old(self).subscribers@.contains(x) && x != id),
            final(self).init_info == old(self).init_info,
            final(self).table_id == old(self).table_id,
            final(self).table_type == old(self).table_type,
    {
        let ghost old_subs = self.subscribers@;
        let mut kept: Vec<u128> = Vec::new();
        let mut i: usize = 0;
        while i < self.subscribers.len()
            invariant
                i <= self.subscribers@.len(),
                self.subscribers@ == old_subs,
                old_subs.no_duplicates(),
                kept@.no_duplicates(),
                forall|x: u128| kept@.contains(x) <==> (old_subs.take(i as int).contains(x) && x != id),
            decreases self.subscribers.len() - i,
        {
            let x = self.subscribers[i];
            let ghost before = kept@;
            assert(old_subs.take(i + 1) =~= old_subs.take(i as int).push(x));
            if x != id {
                assert(!before.contains(x)) by {
                    if before.contains(x) {
                        let j = choose|j: int| 0 <= j < i && old_subs.take(i as int)[j] == x;
                        assert(old_subs[j] == old_subs[i as int]);
                    }
                }
                kept.push(x);
                assert forall|y: u128| kept@.contains(y) <==> (old_subs.take(i + 1).contains(y) && y != id) by {
                    if kept@.contains(y) && y != x {
                        let k = choose|k: int| 0 <= k < kept@.len() && kept@[k] == y;
                        assert(before[k] == y);
                        assert(before.contains(y));
                        let t0 = old_subs.take(i as int);
                        assert(t0.contains(y));
                        let j = choose|j: int| 0 <= j < t0.len() && t0[j] == y;
                        assert(old_subs.take(i + 1)[j] == y);
                    }
                    if old_subs.take(i + 1).contains(y) && y != id && y != x {
                        let t = old_subs.take(i + 1);
                        let j = choose|j: int| 0 <= j < t.len() && t[j] == y;
                        assert(j < i);
                        assert(old_subs.take(i as int)[j] == y);
                        assert(old_subs.take(i as int).contains(y));
                        assert(before.contains(y));
                        let k = choose|k: int| 0 <= k < before.len() && before[k] == y;
                        assert(kept@[k] == y);
                    }
                    if y == x {
                        assert(kept@[before.len() as int] == y);
                        assert(old_subs.take(i + 1)[i as int] == y);
                    }
                }
            }
            i = i + 1;
        }
        assert(old_subs.take(i as int) =~= old_subs);
        self.subscribers = kept;
    }

    /// The signal message for the table's followers.
    fn table_signal(&self, signal: NooID, args: Vec<CborValue>) -> (r: CborValue)
        ensures
            r@ == spec_table_signal(self.table_id, signal, args.deep_view()),
    {
        signal_record(signal, Some(SignalInvokeObj { entity: None, table: Some(self.table_id), plot: None }), args)
    }

    /// The message that tells the table's followers of new or changed rows,
    /// when the table accepted them.
    pub fn rows_message(&self, outcome: Option<(Vec<i64>, Vec<Vec<CborValue>>)>) -> (r: Option<CborValue>)
        ensures
            match outcome {
                None => r is None,
                Some((keys, rows)) => r matches Some(v)
                    && v@ == spec_table_signal(self.table_id, self.init_info.sig_updated, rows_args(keys@, rows.deep_view())),
            },
    {
        match outcome {
            None => None,
            Some((keys, rows)) => {
                let args = vec![keys.to_cbor(), rows.to_cbor()];
                proof {
                    crate::value::lemma_models_of(args@);
                }
                assert(keys.deep_view() =~= keys@);
                assert(args.deep_view() =~= rows_args(keys@, rows.deep_view()));
                Some(self.table_signal(self.init_info.sig_updated, args))
            },
        }
    }

    /// The message that tells the table's followers of removed rows, when
    /// the table removed them.
    pub fn removed_message(&self, outcome: Option<Vec<i64>>) -> (r: Option<CborValue>)
        ensures
            match outcome {
                None => r is None,
                Some(keys) => r matches Some(v) && v@ == spec_table_signal(
                    self.table_id,
                    self.init_info.sig_row_remove,
                    seq![<Vec<i64> as CBORTransform>::encode_spec(keys@)],
                ),
            },
    {
        match outcome {
            None => None,
            Some(keys) => {
                let args = vec![keys.to_cbor()];
                proof {
                    crate::value::lemma_models_of(args@);
                }
                assert(keys.deep_view() =~= keys@);
                assert(args.deep_view() =~= seq![<Vec<i64> as CBORTransform>::encode_spec(keys@)]);
                Some(self.table_signal(self.init_info.sig_row_remove, args))
            },
        }
    }

    /// The message that tells the table's followers of a changed selection,
    /// when the table accepted it.
    pub fn selection_message(&self, outcome: Option<Selection>) -> (r: Option<CborValue>)
        ensures
            match outcome {
                None => r is None,
                Some(sel) => r matches Some(v) && v@ == spec_table_signal(
                    self.table_id,
                    self.init_info.sig_selection_update,
                    seq![Selection::encode_spec(sel.deep_view())],
                ),
            },
    {
        match outcome {
            None => None,
            Some(sel) => {
                let args = vec![sel.to_cbor()];
                proof {
                    crate::value::lemma_models_of(args@);
                }
                assert(args.deep_view() =~= seq![Selection::encode_spec(sel.deep_view())]);
                Some(self.table_signal(self.init_info.sig_selection_update, args))
            },
        }
    }

    /// The message that tells the table's followers the table was reset,
    /// when the table cleared.
    pub fn reset_message(&self, outcome: Option<TableInitData>) -> (r: Option<CborValue>)
        ensures
            match outcome {
                None => r is None,
                Some(init) => r matches Some(v) && v@ == spec_table_signal(
                    self.table_id,
                    self.init_info.sig_reset,
                    seq![TableInitData::encode_spec(init.deep_view())],
                ),
            },
    {
        match outcome {
            None => None,
            Some(init) => {
                let args = vec![init.to_cbor()];
                proof {
                    crate::value::lemma_models_of(args@);
                }
                assert(args.deep_view() =~= seq![TableInitData::encode_spec(init.deep_view())]);
                Some(self.table_signal(self.init_info.sig_reset, args))
            },
        }
    }

    /// Insert rows; the message for the followers when the table took them.
    /// Rows that would run the table out of keys are refused and the table
    /// is not asked.
    pub fn insert(&mut self, new_data: Vec<Vec<CborValue>>) -> (r: Option<CborValue>)
        ensures
            final(self).init_info == old(self).init_info,
            final(self).table_id == old(self).table_id,
            final(self).subscribers == old(self).subscribers,
            !old(self).table_type.insert_within_bounds(new_data@.len()) ==> r is None && final(self).table_type
                == old(self).table_type,
            old(self).table_type.insert_within_bounds(new_data@.len()) ==> exists|out: Option<(Seq<i64>, Seq<Seq<ValueModel>>)>| {
                &&& #[trigger] old(self).table_type.inserted(final(self).table_type, new_data.deep_view(), out)
                &&& rows_signal_for(r, old(self).table_id, old(self).init_info.sig_updated, out)
            },
    {
        if !self.table_type.can_insert(new_data.len()) {
            return None;
        }
        let ghost rows_in = new_data.deep_view();
        let outcome = self.table_type.insert_data(new_data);
        let ghost g = outcome;
        let r = self.rows_message(outcome);
        proof {
            assert(old(self).table_type.inserted(self.table_type, rows_in, rows_outcome(g)));
            assert(rows_signal_for(r, self.table_id, self.init_info.sig_updated, rows_outcome(g)));
        }
        r
    }

    /// Update rows; the message for the followers when the table took them.
    pub fn update(&mut self, keys: Vec<i64>, rows: Vec<Vec<CborValue>>) -> (r: Option<CborValue>)
        ensures
            final(self).init_info == old(self).init_info,
            final(self).table_id == old(self).table_id,
            final(self).subscribers == old(self).subscribers,
            exists|out: Option<(Seq<i64>, Seq<Seq<ValueModel>>)>| {
                &&& #[trigger] old(self).table_type.rows_changed(final(self).table_type, keys@, rows.deep_view(), out)
                &&& rows_signal_for(r, old(self).table_id, old(self).init_info.sig_updated, out)
            },
    {
        let ghost keys_in = keys@;
        let ghost rows_in = rows.deep_view();
        let outcome = self.table_type.update_data(keys, rows);
        let ghost g = outcome;
        let r = self.rows_message(outcome);
        proof {
            assert(old(self).table_type.rows_changed(self.table_type, keys_in, rows_in, rows_outcome(g)));
            assert(rows_signal_for(r, self.table_id, self.init_info.sig_updated, rows_outcome(g)));
        }
        r
    }

    /// Remove rows; the message for the followers when the table removed them.
    pub fn remove(&mut self, keys: Vec<i64>) -> (r: Option<CborValue>)
        ensures
            final(self).init_info == old(self).init_info,
            final(self).table_id == old(self).table_id,
            final(self).subscribers == old(self).subscribers,
            exists|out: Option<Seq<i64>>| {
                &&& #[trigger] old(self).table_type.rows_removed(final(self).table_type, keys@, out)
                &&& match out {
                    None => r is None,
                    Some(k) => r matches Some(v) && v@ == spec_table_signal(
                        old(self).table_id,
                        old(self).init_info.sig_row_remove,
                        seq![<Vec<i64> as CBORTransform>::encode_spec(k)],
                    ),
                }
            },
    {
        let ghost keys_in = keys@;
        let outcome = self.table_type.delete_data(keys);
        let ghost g = outcome;
        let r = self.removed_message(outcome);
        proof {
            assert(old(self).table_type.rows_removed(self.table_type, keys_in, keys_outcome(g)));
        }
        r
    }

    /// Change a selection; the message for the followers when the table took it.
    pub fn update_selection(&mut self, selection: Selection) -> (r: Option<CborValue>)
        ensures
            final(self).init_info == old(self).init_info,
            final(self).table_id == old(self).table_id,
            final(self).subscribers == old(self).subscribers,
            exists|out: Option<SelectionModel>| {
                &&& #[trigger] old(self).table_type.selection_changed(final(self).table_type, selection.deep_view(), out)
                &&& match out {
                    None => r is None,
                    Some(s) => r matches Some(v) && v@ == spec_table_signal(
                        old(self).table_id,
                        old(self).init_info.sig_selection_update,
                        seq![Selection::encode_spec(s)],
                    ),
                }
            },
    {
        let ghost sel_in = selection.deep_view();
        let outcome = self.table_type.update_selection(selection);
        let ghost g = outcome;
        let r = self.selection_message(outcome);
        proof {
            assert(old(self).table_type.selection_changed(self.table_type, sel_in, deep_outcome(g)));
        }
        r
    }

    /// Clear the table; the message for the followers when the table cleared.
    pub fn clear(&mut self) -> (r: Option<CborValue>)
        ensures
            final(self).init_info == old(self).init_info,
            final(self).table_id == old(self).table_id,
            final(self).subscribers == old(self).subscribers,
            exists|out: Option<TableInitDataModel>| {
                &&& #[trigger] old(self).table_type.cleared_to(final(self).table_type, out)
                &&& match out {
                    None => r is None,
                    Some(d) => r matches Some(v) && v@ == spec_table_signal(
                        old(self).table_id,
                        old(self).init_info.sig_reset,
                        seq![TableInitData::encode_spec(d)],
                    ),
                }
            },
    {
        let outcome = self.table_type.clear();
        let ghost g = outcome;
        let r = self.reset_message(outcome);
        proof {
            assert(old(self).table_type.cleared_to(self.table_type, deep_outcome(g)));
        }
        r
    }

    /// Whether a call is one this table answers: a table method, invoked on
    /// this table.
    pub fn can_handle_next(&self, method: &NooID, context: &InvokeObj) -> (r: bool)
        ensures
            r == (*context == InvokeObj::Table(self.table_id) && self.init_info.spec_methods().contains(*method)),
    {
        match context {
            InvokeObj::Table(t) => *t == self.table_id && self.init_info.is_table_message(method),
            _ => false,
        }
    }

    /// Answer a call from a client: the outcome for the client, and the
    /// message for the followers when the call changed the table.
    pub fn handle_next(
        &mut self,
        client: u128,
        method: &NooID,
        context: InvokeObj,
        args: Vec<CborValue>,
    ) -> (r: (Result<Option<CborValue>, MethodException>, Option<CborValue>))
        requires
            old(self).subscribers@.no_duplicates(),
        ensures
            final(self).subscribers@.no_duplicates(),
            final(self).init_info == old(self).init_info,
            final(self).table_id == old(self).table_id,
            !(context == InvokeObj::Table(old(self).table_id) && old(self).init_info.spec_methods().contains(*method)) ==> {
                &&& r.0 matches Err(e) && is_bad_table_method(e)
                &&& r.1 is None
                &&& final(self).subscribers == old(self).subscribers
            },
            (context == InvokeObj::Table(old(self).table_id) && *method == old(self).init_info.mthd_subscribe) ==> {
                &&& r.0 matches Ok(Some(_))
                &&& r.1 is None
                &&& final(self).subscribers@.contains(client)
            },
            r.0 is Err ==> r.1 is None,
            r.0 matches Err(e) ==> (is_bad_table_method(e) || is_invalid_parameters(e)),
            r.1 is Some ==> r.0 matches Ok(None),
            context == InvokeObj::Table(old(self).table_id) ==> call_applied(*old(self), *final(self), *method, models_of(args@), r),
    {
        let call = decode_table_call(&self.init_info, self.table_id, method, context, args);
        match call {
            Err(e) => (Err(e), None),
            Ok(TableCall::Subscribe) => {
                let init = self.subscribe(client);
                (Ok(Some(init.to_cbor())), None)
            },
            Ok(TableCall::Insert(rows)) => {
                let m = self.insert(rows);
                (translate_return(if m.is_some() { Some(()) } else { None }), m)
            },
            Ok(TableCall::Update(keys, rows)) => {
                let m = self.update(keys, rows);
                (translate_return(if m.is_some() { Some(()) } else { None }), m)
            },
            Ok(TableCall::Remove(keys)) => {
                let m = self.remove(keys);
                (translate_return(if m.is_some() { Some(()) } else { None }), m)
            },
            Ok(TableCall::Clear) => {
                let m = self.clear();
                (translate_return(if m.is_some() { Some(()) } else { None }), m)
            },
            Ok(TableCall::UpdateSelection(sel)) => {
                let m = self.update_selection(sel);
                (translate_return(if m.is_some() { Some(()) } else { None }), m)
            },
        }
    }
}

/// On a basic table, a call of the update method replaces the rows under
/// the keys it names with the rows it carries, adds no row and removes none,
/// and the followers hear of exactly the rows that changed.
pub proof fn lemma_update_call_replaces_rows(
    old: TableStore<crate::server_table::BasicTable>,
    new: TableStore<crate::server_table::BasicTable>,
    method: NooID,
    args: Seq<ValueModel>,
    r: (Result<Option<CborValue>, MethodException>, Option<CborValue>),
    keys: Seq<i64>,
    rows: Seq<Seq<ValueModel>>,
)
    requires
        call_applied(old, new, method, args, r),
        old.init_info.method_kind(method) == TableMethodKind::Update,
        spec_arg_two::<Vec<i64>, Vec<Vec<CborValue>>>(args) == Some((keys, rows)),
        keys.len() == rows.len(),
    ensures
        new.table_type.model().data == crate::server_table::apply_updates(old.table_type.model().data, keys, rows).0,
        new.table_type.model().data.dom() == old.table_type.model().data.dom(),
        rows_signal_for(
            r.1,
            old.table_id,
            old.init_info.sig_updated,
            Some((
                crate::server_table::apply_updates(old.table_type.model().data, keys, rows).1,
                crate::server_table::apply_updates(old.table_type.model().data, keys, rows).2,
            )),
        ),
{
    crate::server_table::lemma_apply_updates_dom(old.table_type.model().data, keys, rows);
}

} // verus!
