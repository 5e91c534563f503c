//! The methods and signals through which tables are shared, on both sides.
use vstd::prelude::*;
use crate::nooid::NooID;
use crate::value::{CborValue, ValueModel, models_of, lemma_models_of};
use crate::value_tools::{CBORTransform, FromValueErrorModel};
use crate::table::{Selection, SelectionModel};
use crate::components::{MethodArg, MethodState, SignalState};
use crate::component_list::{ServerComponentList, can_provision, next_id};
use crate::client_state::{ComponentList, InvokeContext};
use crate::client_table::TableDataStorage;
use crate::invoke::InvokeObj;
use crate::server_communication::{ExceptionCodes, MethodException};
use crate::server_state::create_component;
use crate::announce::{spec_record, spec_created};
use crate::common::ServerMessages;
use crate::component_list::ComponentListModel;

verus! {

pub const MTHD_TBL_SUBSCRIBE: &'static str = "noo::tbl_subscribe";
pub const MTHD_TBL_INSERT: &'static str = "noo::tbl_insert";
pub const MTHD_TBL_UPDATE: &'static str = "noo::tbl_update";
pub const MTHD_TBL_REMOVE: &'static str = "noo::tbl_remove";
pub const MTHD_TBL_CLEAR: &'static str = "noo::tbl_clear";
pub const MTHD_TBL_UPDATE_SELECTION: &'static str = "noo::tbl_update_selection";
pub const SIG_TBL_RESET: &'static str = "noo::tbl_reset";
pub const SIG_TBL_UPDATED: &'static str = "noo::tbl_updated";
pub const SIG_TBL_ROWS_REMOVED: &'static str = "noo::tbl_rows_removed";
pub const SIG_TBL_SELECTION_UPDATED: &'static str = "noo::tbl_selection_updated";

// =============================================================================

/// What reading the first argument of a call as `A` gives.
pub open spec fn spec_arg_one<A: CBORTransform>(args: Seq<ValueModel>) -> Option<A::V> {
    if args.len() < 1 {
        None
    } else {
        match A::decode_spec(args[0]) {
            Ok(a) => Some(a),
            Err(_) => None,
        }
    }
}

/// What reading the first two arguments of a call as `A` and `B` gives.
pub open spec fn spec_arg_two<A: CBORTransform, B: CBORTransform>(args: Seq<ValueModel>) -> Option<(A::V, B::V)> {
    if args.len() < 2 {
        None
    } else {
        match (A::decode_spec(args[0]), B::decode_spec(args[1])) {
            (Ok(a), Ok(b)) => Some((a, b)),
            _ => None,
        }
    }
}

/// Read the first argument of a call; further arguments are ignored.
pub fn arg_one<A: CBORTransform>(args: Vec<CborValue>) -> (r: Option<A>)
    ensures
        match r {
            Some(a) => spec_arg_one::<A>(models_of(args@)) == Some(a.deep_view()),
            None => spec_arg_one::<A>(models_of(args@)) is None,
        },
{
    proof {
        lemma_models_of(args@);
    }
    if args.len() < 1 {
        return None;
    }
    match A::try_from_cbor(args[0].deep_clone()) {
        Ok(a) => Some(a),
        Err(_) => None,
    }
}

/// Read the first two arguments of a call; further arguments are ignored.
pub fn arg_two<A: CBORTransform, B: CBORTransform>(args: Vec<CborValue>) -> (r: Option<(A, B)>)
    ensures
        match r {
            Some((a, b)) => spec_arg_two::<A, B>(models_of(args@)) == Some((a.deep_view(), b.deep_view())),
            None => spec_arg_two::<A, B>(models_of(args@)) is None,
        },
{
    proof {
        lemma_models_of(args@);
    }
    if args.len() < 2 {
        return None;
    }
    let a = match A::try_from_cbor(args[0].deep_clone()) {
        Ok(a) => a,
        Err(_) => return None,
    };
    match B::try_from_cbor(args[1].deep_clone()) {
        Ok(b) => Some((a, b)),
        Err(_) => None,
    }
}

// =============================================================================

/// The identifiers of the methods and signals every shared table carries.
#[derive(Debug, Clone, Copy)]
pub struct TableSystemInit {
    pub sig_reset: NooID,
    pub sig_updated: NooID,
    pub sig_row_remove: NooID,
    pub sig_selection_update: NooID,
    pub mthd_subscribe: NooID,
    pub mthd_insert: NooID,
    pub mthd_update: NooID,
    pub mthd_remove: NooID,
    pub mthd_clear: NooID,
    pub mthd_update_selection: NooID,
}

/// Whether `n` more components can get identifiers, one after the other.
pub open spec fn can_provision_many<T>(m: crate::component_list::ComponentListModel<T>, n: nat) -> bool {
    &&& m.order.len() + m.free.len() + n <= u32::MAX + 1
    &&& forall|j: int| 0 <= j < m.free.len() ==> (#[trigger] m.free[j]).spec_gen() < u32::MAX
}

/// The messages that announce the table methods, then the table signals.
pub open spec fn table_system_announcements<M, S>(
    r: TableSystemInit,
    methods: ComponentListModel<MethodState<M>>,
    signals: ComponentListModel<SignalState<S>>,
) -> Seq<ValueModel> {
    r.spec_methods().map_values(
        |id: NooID| spec_record(ServerMessages::MsgMethodCreate, spec_created::<MethodState<M>>(id, methods.items[id].deep_view())),
    ) + r.spec_signals().map_values(
        |id: NooID| spec_record(ServerMessages::MsgSignalCreate, spec_created::<SignalState<S>>(id, signals.items[id].deep_view())),
    )
}

fn some_text(s: &str) -> (r: Option<String>)
    ensures
        r matches Some(t) && t@ == s@,
{
    Some(String::from_str(s))
}

fn arg(name: &str, doc: &str) -> (r: MethodArg)
    ensures
        r.name@ == name@,
        r.doc matches Some(t) && t@ == doc@,
{
    MethodArg { name: String::from_str(name), doc: some_text(doc) }
}

fn add_method<M: Default>(
    methods: &mut ServerComponentList<MethodState<M>>,
    broadcast: &mut Vec<CborValue>,
    name: &str,
    doc: &str,
    return_doc: Option<String>,
    arg_doc: Vec<MethodArg>,
    ghost_remaining: Ghost<nat>,
) -> (r: NooID)
    requires
        old(methods).wf(),
        can_provision_many(old(methods).model(), ghost_remaining@ + 1),
    ensures
        final(methods).wf(),
        can_provision_many(final(methods).model(), ghost_remaining@),
        r == next_id(old(methods).model()),
        final(methods).model().order == old(methods).model().order.push(r),
        !old(methods).model().items.contains_key(r),
        final(methods).model().items.contains_key(r),
        final(methods).model().items[r].name@ == name@,
        forall|x: NooID| #[trigger] old(methods).model().items.contains_key(x) ==> final(methods).model().items.contains_key(x)
            && final(methods).model().items[x] == old(methods).model().items[x],
        models_of(final(broadcast)@) == models_of(old(broadcast)@).push(
            spec_record(ServerMessages::MsgMethodCreate, spec_created::<MethodState<M>>(r, final(methods).model().items[r].deep_view())),
        ),
{
    let state = MethodState { name: String::from_str(name), doc: some_text(doc), return_doc, arg_doc, state: M::default() };
    assert(can_provision(methods.model())) by {
        if methods.model().free.len() > 0 {
            let m = methods.model();
            assert(m.free.last() == m.free[m.free.len() - 1]);
        }
    }
    let r = create_component(methods, broadcast, state);
    proof {
        let m = methods.model();
        assert forall|j: int| 0 <= j < m.free.len() implies (#[trigger] m.free[j]).spec_gen() < u32::MAX by {
            assert(m.free[j] == old(methods).model().free[j]);
        }
    }
    r
}

fn add_signal<S: Default>(
    signals: &mut ServerComponentList<SignalState<S>>,
    broadcast: &mut Vec<CborValue>,
    name: &str,
    doc: &str,
    arg_doc: Vec<MethodArg>,
    ghost_remaining: Ghost<nat>,
) -> (r: NooID)
    requires
        old(signals).wf(),
        can_provision_many(old(signals).model(), ghost_remaining@ + 1),
    ensures
        final(signals).wf(),
        can_provision_many(final(signals).model(), ghost_remaining@),
        r == next_id(old(signals).model()),
        final(signals).model().order == old(signals).model().order.push(r),
        !old(signals).model().items.contains_key(r),
        final(signals).model().items.contains_key(r),
        final(signals).model().items[r].name@ == name@,
        forall|x: NooID| #[trigger] old(signals).model().items.contains_key(x) ==> final(signals).model().items.contains_key(x)
            && final(signals).model().items[x] == old(signals).model().items[x],
        models_of(final(broadcast)@) == models_of(old(broadcast)@).push(
            spec_record(ServerMessages::MsgSignalCreate, spec_created::<SignalState<S>>(r, final(signals).model().items[r].deep_view())),
        ),
{
    let state = SignalState { name: String::from_str(name), doc: some_text(doc), arg_doc, state: S::default() };
    assert(can_provision(signals.model())) by {
        if signals.model().free.len() > 0 {
            let m = signals.model();
            assert(m.free.last() == m.free[m.free.len() - 1]);
        }
    }
    let r = create_component(signals, broadcast, state);
    proof {
        let m = signals.model();
        assert forall|j: int| 0 <= j < m.free.len() implies (#[trigger] m.free[j]).spec_gen() < u32::MAX by {
            assert(m.free[j] == old(signals).model().free[j]);
        }
    }
    r
}

impl TableSystemInit {
    /// Create the methods and signals of the table system.
    pub fn new<M: Default, S: Default>(
        methods: &mut ServerComponentList<MethodState<M>>,
        signals: &mut ServerComponentList<SignalState<S>>,
        broadcast: &mut Vec<CborValue>,
    ) -> (r: Self)
        requires
            old(methods).wf(),
            old(signals).wf(),
            can_provision_many(old(methods).model(), 6),
            can_provision_many(old(signals).model(), 4),
        ensures
            final(methods).wf(),
            final(signals).wf(),
            final(methods).model().items.contains_key(r.mthd_subscribe),
            final(methods).model().items[r.mthd_subscribe].name@ == MTHD_TBL_SUBSCRIBE@,
            final(methods).model().items[r.mthd_insert].name@ == MTHD_TBL_INSERT@,
            final(methods).model().items[r.mthd_update].name@ == MTHD_TBL_UPDATE@,
            final(methods).model().items[r.mthd_remove].name@ == MTHD_TBL_REMOVE@,
            final(methods).model().items[r.mthd_clear].name@ == MTHD_TBL_CLEAR@,
            final(methods).model().items[r.mthd_update_selection].name@ == MTHD_TBL_UPDATE_SELECTION@,
            final(signals).model().items[r.sig_reset].name@ == SIG_TBL_RESET@,
            final(signals).model().items[r.sig_updated].name@ == SIG_TBL_UPDATED@,
            final(signals).model().items[r.sig_row_remove].name@ == SIG_TBL_ROWS_REMOVED@,
            final(signals).model().items[r.sig_selection_update].name@ == SIG_TBL_SELECTION_UPDATED@,
            final(methods).model().items.contains_key(r.mthd_insert),
            final(methods).model().items.contains_key(r.mthd_update),
            final(methods).model().items.contains_key(r.mthd_remove),
            final(methods).model().items.contains_key(r.mthd_clear),
            final(methods).model().items.contains_key(r.mthd_update_selection),
            final(signals).model().items.contains_key(r.sig_reset),
            final(signals).model().items.contains_key(r.sig_updated),
            final(signals).model().items.contains_key(r.sig_row_remove),
            final(signals).model().items.contains_key(r.sig_selection_update),
            forall|x: NooID| #[trigger] old(methods).model().items.contains_key(x) ==> final(methods).model().items[x] == old(methods).model().items[x],
            forall|x: NooID| #[trigger] old(signals).model().items.contains_key(x) ==> final(signals).model().items[x] == old(signals).model().items[x],
            models_of(final(broadcast)@) == models_of(old(broadcast)@) + table_system_announcements(r, final(methods).model(), final(signals).model()),
            final(methods).model().order == old(methods).model().order + r.spec_methods(),
            final(signals).model().order == old(signals).model().order + r.spec_signals(),
    {
        let ghost b0 = models_of(broadcast@);
        let ghost mo = methods.model().order;
        let ghost so = signals.model().order;
        let mthd_subscribe = add_method(methods, broadcast, MTHD_TBL_SUBSCRIBE, "Subscribe to the given table",
            some_text("Initial table data structure"), Vec::new(), Ghost(5));
        let mut insert_args: Vec<MethodArg> = Vec::new();
        insert_args.push(arg("rows", "A list of rows, which is a list of data to insert."));
        let mthd_insert = add_method(methods, broadcast, MTHD_TBL_INSERT, "Ask to insert data into the table", None, insert_args, Ghost(4));
        let mut update_args: Vec<MethodArg> = Vec::new();
        update_args.push(arg("keys", "A list of keys, one for each row."));
        update_args.push(arg("rows", "A list of rows, which is a list of data to update."));
        let mthd_update = add_method(methods, broadcast, MTHD_TBL_UPDATE, "Ask to update data in the table", None, update_args, Ghost(3));
        let mut remove_args: Vec<MethodArg> = Vec::new();
        remove_args.push(arg("keys", "A list of keys to remove."));
        let mthd_remove = add_method(methods, broadcast, MTHD_TBL_REMOVE, "Ask to remove data in the table", None, remove_args, Ghost(2));
        let mthd_clear = add_method(methods, broadcast, MTHD_TBL_CLEAR, "Ask to clear all data in the table", None, Vec::new(), Ghost(1));
        let mut selection_args: Vec<MethodArg> = Vec::new();
        selection_args.push(arg("selection", "A selection object"));
        let mthd_update_selection = add_method(methods, broadcast, MTHD_TBL_UPDATE_SELECTION, "Ask to update a selection in the table",
            None, selection_args, Ghost(0));

        let mut reset_args: Vec<MethodArg> = Vec::new();
        reset_args.push(arg("table_init", "New table data"));
        let sig_reset = add_signal(signals, broadcast, SIG_TBL_RESET, "The table context has been reset.", reset_args, Ghost(3));
        let mut updated_args: Vec<MethodArg> = Vec::new();
        updated_args.push(arg("key_list", "Keys for new/updated rows"));
        updated_args.push(arg("row_list", "New/updated rows"));
        let sig_updated = add_signal(signals, broadcast, SIG_TBL_UPDATED, "The table rows have been updated", updated_args, Ghost(2));
        let mut removed_args: Vec<MethodArg> = Vec::new();
        removed_args.push(arg("key_list", "Keys to remove from the table"));
        let sig_row_remove = add_signal(signals, broadcast, SIG_TBL_ROWS_REMOVED, "Rows have been removed from the table", removed_args, Ghost(1));
        let mut sel_args: Vec<MethodArg> = Vec::new();
        sel_args.push(arg("selection", "A Selection type"));
        let sig_selection_update = add_signal(signals, broadcast, SIG_TBL_SELECTION_UPDATED, "A selection for the table has been updated",
            sel_args, Ghost(0));

        let r = TableSystemInit {
            sig_reset,
            sig_updated,
            sig_row_remove,
            sig_selection_update,
            mthd_subscribe,
            mthd_insert,
            mthd_update,
            mthd_remove,
            mthd_clear,
            mthd_update_selection,
        };
        proof {
            assert(models_of(broadcast@) =~= b0 + table_system_announcements(r, methods.model(), signals.model()));
            assert(methods.model().order =~= mo + r.spec_methods());
            assert(signals.model().order =~= so + r.spec_signals());
        }
        r
    }

    /// The signals a table carries.
    pub open spec fn spec_signals(&self) -> Seq<NooID> {
        seq![self.sig_reset, self.sig_updated, self.sig_row_remove, self.sig_selection_update]
    }

    /// The methods a table carries.
    pub open spec fn spec_methods(&self) -> Seq<NooID> {
        seq![self.mthd_subscribe, self.mthd_insert, self.mthd_update, self.mthd_remove, self.mthd_clear, self.mthd_update_selection]
    }

    /// Which table method an identifier names; where the table uses one
    /// identifier for two methods, the first in the order subscribe, insert,
    /// update, remove, clear, update selection.
    pub open spec fn method_kind(&self, method: NooID) -> TableMethodKind {
        if method == self.mthd_subscribe {
            TableMethodKind::Subscribe
        } else if method == self.mthd_insert {
            TableMethodKind::Insert
        } else if method == self.mthd_update {
            TableMethodKind::Update
        } else if method == self.mthd_remove {
            TableMethodKind::Remove
        } else if method == self.mthd_clear {
            TableMethodKind::Clear
        } else if method == self.mthd_update_selection {
            TableMethodKind::UpdateSelection
        } else {
            TableMethodKind::NotATableMethod
        }
    }

    /// Whether a method is one of the table methods.
    pub fn is_table_message(&self, method: &NooID) -> (r: bool)
        ensures
            r == self.spec_methods().contains(*method),
    {
        let r = *method == self.mthd_subscribe || *method == self.mthd_insert || *method == self.mthd_update
            || *method == self.mthd_remove || *method == self.mthd_clear || *method == self.mthd_update_selection;
        proof {
            let s = self.spec_methods();
            if r {
                if *method == self.mthd_subscribe { assert(s[0] == *method); }
                if *method == self.mthd_insert { assert(s[1] == *method); }
                if *method == self.mthd_update { assert(s[2] == *method); }
                if *method == self.mthd_remove { assert(s[3] == *method); }
                if *method == self.mthd_clear { assert(s[4] == *method); }
                if *method == self.mthd_update_selection { assert(s[5] == *method); }
            }
        }
        r
    }
}

// =============================================================================

/// The table methods a client can call.
pub enum TableMethodKind {
    Subscribe,
    Insert,
    Update,
    Remove,
    Clear,
    UpdateSelection,
    NotATableMethod,
}

/// A request a client makes of a shared table.
#[derive(Debug)]
pub enum TableCall {
    Subscribe,
    Insert(Vec<Vec<CborValue>>),
    Update(Vec<i64>, Vec<Vec<CborValue>>),
    Remove(Vec<i64>),
    Clear,
    UpdateSelection(Selection),
}

/// The model of a [`TableCall`].
pub enum TableCallModel {
    Subscribe,
    Insert(Seq<Seq<ValueModel>>),
    Update(Seq<i64>, Seq<Seq<ValueModel>>),
    Remove(Seq<i64>),
    Clear,
    UpdateSelection(SelectionModel),
}

impl DeepView for TableCall {
    type V = TableCallModel;

    open spec fn deep_view(&self) -> TableCallModel {
        match self {
            TableCall::Subscribe => TableCallModel::Subscribe,
            TableCall::Insert(rows) => TableCallModel::Insert(rows.deep_view()),
            TableCall::Update(k, rows) => TableCallModel::Update(k@, rows.deep_view()),
            TableCall::Remove(k) => TableCallModel::Remove(k@),
            TableCall::Clear => TableCallModel::Clear,
            TableCall::UpdateSelection(s) => TableCallModel::UpdateSelection(s.deep_view()),
        }
    }
}

/// The exception for a call a table does not accept.
pub open spec fn is_invalid_parameters(e: MethodException) -> bool {
    e.code == ExceptionCodes::InvalidParameters.spec_code() && e.message is None && e.data is None
}

/// The exception for a call that was sent to a table by mistake.
pub open spec fn is_bad_table_method(e: MethodException) -> bool {
    &&& e.code == ExceptionCodes::InternalError.spec_code()
    &&& e.message matches Some(m) && m@ == "Given a bad method to invoke on a table."@
    &&& e.data is None
}

/// Read a call to a table: it must be invoked on the table itself with one of
/// the table methods, and its arguments must read as that method expects.
pub fn decode_table_call(
    init: &TableSystemInit,
    table_id: NooID,
    method: &NooID,
    context: InvokeObj,
    args: Vec<CborValue>,
) -> (r: Result<TableCall, MethodException>)
    ensures
        !(context == InvokeObj::Table(table_id) && init.spec_methods().contains(*method)) ==> (r matches Err(e) && is_bad_table_method(e)),
        (context == InvokeObj::Table(table_id) && *method == init.mthd_subscribe) ==> r matches Ok(TableCall::Subscribe),
        (context == InvokeObj::Table(table_id) && *method == init.mthd_clear && *method != init.mthd_subscribe && *method != init.mthd_insert
            && *method != init.mthd_update && *method != init.mthd_remove) ==> r matches Ok(TableCall::Clear),
        r matches Err(e) ==> (is_bad_table_method(e) || is_invalid_parameters(e)),
        r matches Ok(TableCall::Insert(rows)) ==> rows.deep_view() == crate::value_tools::decoded_successes::<Vec<CborValue>>(models_of(args@)),
        r matches Ok(TableCall::Update(k, rows)) ==> spec_arg_two::<Vec<i64>, Vec<Vec<CborValue>>>(models_of(args@)) == Some((k@, rows.deep_view())),
        r matches Ok(TableCall::Remove(k)) ==> spec_arg_one::<Vec<i64>>(models_of(args@)) == Some(k@),
        r matches Ok(TableCall::UpdateSelection(s)) ==> spec_arg_one::<Selection>(models_of(args@)) == Some(s.deep_view()),
        context == InvokeObj::Table(table_id) ==> match init.method_kind(*method) {
            TableMethodKind::Subscribe => r matches Ok(TableCall::Subscribe),
            TableMethodKind::Insert => r matches Ok(TableCall::Insert(rows))
                && rows.deep_view() == crate::value_tools::decoded_successes::<Vec<CborValue>>(models_of(args@)),
            TableMethodKind::Update => match spec_arg_two::<Vec<i64>, Vec<Vec<CborValue>>>(models_of(args@)) {
                Some((k, rows)) => r matches Ok(TableCall::Update(k2, rows2)) && k2@ == k && rows2.deep_view() == rows,
                None => r matches Err(e) && is_invalid_parameters(e),
            },
            TableMethodKind::Remove => match spec_arg_one::<Vec<i64>>(models_of(args@)) {
                Some(k) => r matches Ok(TableCall::Remove(k2)) && k2@ == k,
                None => r matches Err(e) && is_invalid_parameters(e),
            },
            TableMethodKind::Clear => r matches Ok(TableCall::Clear),
            TableMethodKind::UpdateSelection => match spec_arg_one::<Selection>(models_of(args@)) {
                Some(sel) => r matches Ok(TableCall::UpdateSelection(s2)) && s2.deep_view() == sel,
                None => r matches Err(e) && is_invalid_parameters(e),
            },
            TableMethodKind::NotATableMethod => r matches Err(e) && is_bad_table_method(e),
        },
{
    let bad = MethodException { code: ExceptionCodes::InternalError.code(), message: some_text("Given a bad method to invoke on a table."), data: None };
    let invalid = MethodException::invalid_parameters();
    let on_table = match context {
        InvokeObj::Table(t) => t == table_id,
        _ => false,
    };
    if !(on_table && init.is_table_message(method)) {
        return Err(bad);
    }
    if *method == init.mthd_subscribe {
        Ok(TableCall::Subscribe)
    } else if *method == init.mthd_insert {
        match crate::value_tools::from_cbor_list::<Vec<CborValue>>(args) {
            Ok(rows) => Ok(TableCall::Insert(rows)),
            Err(_) => Err(invalid),
        }
    } else if *method == init.mthd_update {
        match arg_two::<Vec<i64>, Vec<Vec<CborValue>>>(args) {
            Some((keys, rows)) => Ok(TableCall::Update(keys, rows)),
            None => Err(invalid),
        }
    } else if *method == init.mthd_remove {
        match arg_one::<Vec<i64>>(args) {
            Some(keys) => Ok(TableCall::Remove(keys)),
            None => Err(invalid),
        }
    } else if *method == init.mthd_clear {
        Ok(TableCall::Clear)
    } else {
        match arg_one::<Selection>(args) {
            Some(s) => Ok(TableCall::UpdateSelection(s)),
            None => Err(invalid),
        }
    }
}

/// The answer to a table call: nothing when the table accepted it, else an
/// invalid parameters exception.
pub fn translate_return(r: Option<()>) -> (res: Result<Option<CborValue>, MethodException>)
    ensures
        r is Some ==> res matches Ok(None),
        r is None ==> (res matches Err(e) && is_invalid_parameters(e)),
{
    if r.is_some() {
        return Ok(None);
    }
    Err(MethodException::invalid_parameters())
}

// =============================================================================

/// The signal of a table, as a client reads it.
#[derive(Debug)]
pub enum TableSignal {
    Reset,
    Updated(Vec<i64>, Vec<Vec<CborValue>>),
    RowsRemoved(Vec<i64>),
    SelectionUpdated(Selection),
    Other,
}

/// Find the signal the table system announced under a name.
pub fn signal_by_name<D>(signals: &ComponentList<D>, name: &str) -> (r: Option<NooID>)
    requires
        signals.wf(),
    ensures
        r == if signals.model().names.contains_key(name@) {
            Some(signals.model().names[name@])
        } else {
            None
        },
{
    signals.get_id_by_name(name)
}

/// Read a table signal: the signal is matched against the table signals by
/// name; `None` when one of those names is unknown or the arguments do not read.
pub fn decode_table_signal<D>(id: NooID, signals: &ComponentList<D>, args: Vec<CborValue>) -> (r: Option<TableSignal>)
    requires
        signals.wf(),
    ensures
        r is Some <==> decode_table_signal_succeeds(id, signals, args),
        r is Some ==> (signals.model().names.contains_key(SIG_TBL_RESET@) && signals.model().names.contains_key(SIG_TBL_UPDATED@)
            && signals.model().names.contains_key(SIG_TBL_ROWS_REMOVED@) && signals.model().names.contains_key(SIG_TBL_SELECTION_UPDATED@)),
        r matches Some(TableSignal::Reset) ==> id == signals.model().names[SIG_TBL_RESET@],
        r matches Some(TableSignal::Updated(k, rows)) ==> id == signals.model().names[SIG_TBL_UPDATED@]
            && id != signals.model().names[SIG_TBL_RESET@]
            && spec_arg_two::<Vec<i64>, Vec<Vec<CborValue>>>(models_of(args@)) == Some((k@, rows.deep_view())),
        r matches Some(TableSignal::RowsRemoved(k)) ==> id == signals.model().names[SIG_TBL_ROWS_REMOVED@]
            && id != signals.model().names[SIG_TBL_RESET@] && id != signals.model().names[SIG_TBL_UPDATED@]
            && spec_arg_one::<Vec<i64>>(models_of(args@)) == Some(k@),
        r matches Some(TableSignal::SelectionUpdated(s)) ==> id == signals.model().names[SIG_TBL_SELECTION_UPDATED@]
            && id != signals.model().names[SIG_TBL_RESET@] && id != signals.model().names[SIG_TBL_UPDATED@]
            && id != signals.model().names[SIG_TBL_ROWS_REMOVED@]
            && spec_arg_one::<Selection>(models_of(args@)) == Some(s.deep_view()),
        r matches Some(TableSignal::Other) ==> id != signals.model().names[SIG_TBL_RESET@] && id != signals.model().names[SIG_TBL_UPDATED@]
            && id != signals.model().names[SIG_TBL_ROWS_REMOVED@] && id != signals.model().names[SIG_TBL_SELECTION_UPDATED@],
{
    let sig_reset_id = signal_by_name(signals, SIG_TBL_RESET)?;
    let sig_updated_id = signal_by_name(signals, SIG_TBL_UPDATED)?;
    let sig_remove_id = signal_by_name(signals, SIG_TBL_ROWS_REMOVED)?;
    let sig_selection_update_id = signal_by_name(signals, SIG_TBL_SELECTION_UPDATED)?;
    if id == sig_reset_id {
        Some(TableSignal::Reset)
    } else if id == sig_updated_id {
        let (keys, rows) = arg_two::<Vec<i64>, Vec<Vec<CborValue>>>(args)?;
        Some(TableSignal::Updated(keys, rows))
    } else if id == sig_remove_id {
        let keys = arg_one::<Vec<i64>>(args)?;
        Some(TableSignal::RowsRemoved(keys))
    } else if id == sig_selection_update_id {
        let selection = arg_one::<Selection>(args)?;
        Some(TableSignal::SelectionUpdated(selection))
    } else {
        Some(TableSignal::Other)
    }
}

/// Apply a table signal to the client's storage of the table.
pub fn apply_table_signal<T: TableDataStorage>(tbl: &mut T, signal: TableSignal)
    ensures
        match signal {
            TableSignal::Reset => old(tbl).cleared(*final(tbl)),
            TableSignal::Updated(keys, rows) => old(tbl).rows_updated(*final(tbl), keys@, rows.deep_view()),
            TableSignal::RowsRemoved(keys) => old(tbl).rows_deleted(*final(tbl), keys@),
            TableSignal::SelectionUpdated(s) => old(tbl).selection_updated(*final(tbl), s.deep_view()),
            TableSignal::Other => *final(tbl) == *old(tbl),
        },
{
    match signal {
        TableSignal::Reset => tbl.clear(),
        TableSignal::Updated(keys, rows) => tbl.update_data(keys, rows),
        TableSignal::RowsRemoved(keys) => tbl.delete_data(keys),
        TableSignal::SelectionUpdated(s) => tbl.update_selection(s),
        TableSignal::Other => {},
    }
}

/// Handle a signal on a subscribed table; `None` when the signal could not be
/// read, in which case the table is left as it is.
pub fn on_signal_fallible<T: TableDataStorage, D>(
    table: &mut Option<T>,
    id: NooID,
    signals: &ComponentList<D>,
    args: Vec<CborValue>,
) -> (r: Option<()>)
    requires
        signals.wf(),
    ensures
        *old(table) is None ==> (r is Some && *final(table) == *old(table)),
        *old(table) is Some ==> (r is Some <==> decode_table_signal_succeeds(id, signals, args)),
        r is None ==> *final(table) == *old(table),
        (*final(table) is Some) == (*old(table) is Some),
        (r is Some && *old(table) is Some) ==> (*final(table) matches Some(t2)
            && table_signal_applied(old(table)->Some_0, t2, id, signals.model().names, models_of(args@))),
{
    match table.take() {
        None => Some(()),
        Some(mut tbl) => {
            let signal = decode_table_signal(id, signals, args);
            match signal {
                Some(s) => {
                    apply_table_signal(&mut tbl, s);
                    *table = Some(tbl);
                    Some(())
                },
                None => {
                    *table = Some(tbl);
                    None
                },
            }
        },
    }
}

/// Whether a table signal reads.
pub open spec fn decode_table_signal_succeeds<D>(id: NooID, signals: &ComponentList<D>, args: Vec<CborValue>) -> bool {
    table_signal_reads(id, signals.model().names, models_of(args@))
}

/// Whether a table signal reads, given the names under which signals were
/// announced: every table signal is known by name, and the arguments read as
/// the signal expects.
pub open spec fn table_signal_reads(id: NooID, n: Map<Seq<char>, NooID>, a: Seq<ValueModel>) -> bool {
    &&& n.contains_key(SIG_TBL_RESET@)
    &&& n.contains_key(SIG_TBL_UPDATED@)
    &&& n.contains_key(SIG_TBL_ROWS_REMOVED@)
    &&& n.contains_key(SIG_TBL_SELECTION_UPDATED@)
    &&& (id == n[SIG_TBL_RESET@] || (id == n[SIG_TBL_UPDATED@] ==> spec_arg_two::<Vec<i64>, Vec<Vec<CborValue>>>(a) is Some))
    &&& (id == n[SIG_TBL_RESET@] || id == n[SIG_TBL_UPDATED@] || (id == n[SIG_TBL_ROWS_REMOVED@] ==> spec_arg_one::<Vec<i64>>(a) is Some))
    &&& (id == n[SIG_TBL_RESET@] || id == n[SIG_TBL_UPDATED@] || id == n[SIG_TBL_ROWS_REMOVED@]
        || (id == n[SIG_TBL_SELECTION_UPDATED@] ==> spec_arg_one::<Selection>(a) is Some))
}

/// `next` is the storage `t` after a table signal that reads: a reset clears
/// it, new rows are stored, removed rows go, a selection changes, and any
/// other signal leaves it as it is.
pub open spec fn table_signal_applied<T: TableDataStorage>(
    t: T,
    next: T,
    id: NooID,
    n: Map<Seq<char>, NooID>,
    a: Seq<ValueModel>,
) -> bool {
    if id == n[SIG_TBL_RESET@] {
        t.cleared(next)
    } else if id == n[SIG_TBL_UPDATED@] {
        spec_arg_two::<Vec<i64>, Vec<Vec<CborValue>>>(a) matches Some((k, rows)) && t.rows_updated(next, k, rows)
    } else if id == n[SIG_TBL_ROWS_REMOVED@] {
        spec_arg_one::<Vec<i64>>(a) matches Some(k) && t.rows_deleted(next, k)
    } else if id == n[SIG_TBL_SELECTION_UPDATED@] {
        spec_arg_one::<Selection>(a) matches Some(s) && t.selection_updated(next, s)
    } else {
        next == t
    }
}

} // verus!
