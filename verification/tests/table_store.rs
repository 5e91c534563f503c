use colabrodo::components::{MethodState, SignalState, TableState, TableStateUpdatable};
use colabrodo::invoke::InvokeObj;
use colabrodo::nooid::NooID;
use colabrodo::server_state::{create_component, ServerState};
use colabrodo::server_table::BasicTable;
use colabrodo::table::{Selection, TableColumnInfo, TableInitData};
use colabrodo::table_protocol::TableSystemInit;
use colabrodo::table_store::TableStore;
use colabrodo::value::CborValue;
use colabrodo::value_tools::{from_cbor, CBORTransform};

fn column(name: &str) -> TableColumnInfo {
    TableColumnInfo { name: name.to_string(), type_: "INTEGER".to_string() }
}

fn setup() -> (ServerState<u64>, TableSystemInit, NooID, NooID) {
    let mut state: ServerState<u64> = ServerState::new();
    let init = TableSystemInit::new(&mut state.methods, &mut state.signals, &mut state.broadcast);
    let own_method = create_component(
        &mut state.methods,
        &mut state.broadcast,
        MethodState { name: "mine".to_string(), doc: None, return_doc: None, arg_doc: vec![], state: 0 },
    );
    let table = create_component(
        &mut state.tables,
        &mut state.broadcast,
        TableState {
            name: Some("T".to_string()),
            mutable: TableStateUpdatable { meta: None, methods_list: Some(vec![own_method, init.mthd_clear]), signals_list: None },
        },
    );
    (state, init, table, own_method)
}

fn signal_number(v: &CborValue) -> CborValue {
    match v {
        CborValue::Array(parts) => parts[0].clone(),
        _ => panic!("not a message"),
    }
}

#[test]
fn attach_merges_table_methods_and_signals() {
    let (mut state, init, table, own_method) = setup();
    let before = state.broadcast.len();
    let store = TableStore::new(&mut state.tables, &mut state.broadcast, init, table, BasicTable::new(vec![column("a")], vec![]));
    assert_eq!(store.subscribers.len(), 0);

    let t = state.tables.get_data(table).unwrap();
    // the table keeps its own method first, and lists each method once
    assert_eq!(
        t.mutable.methods_list,
        Some(vec![own_method, init.mthd_clear, init.mthd_subscribe, init.mthd_insert, init.mthd_update, init.mthd_remove, init.mthd_update_selection])
    );
    assert_eq!(t.mutable.signals_list, Some(vec![init.sig_reset, init.sig_updated, init.sig_row_remove, init.sig_selection_update]));
    assert_eq!(t.name.as_deref(), Some("T"));

    // and the change went out as a table update
    assert_eq!(state.broadcast.len(), before + 1);
    assert_eq!(signal_number(&state.broadcast[before]), CborValue::Integer(29));

    // a table that is not live is left alone
    assert!(!init.attach(&mut state.tables, &mut state.broadcast, NooID::new(4, 0)));
    assert_eq!(state.broadcast.len(), before + 1);
}

#[test]
fn table_calls_answer_and_notify_followers() {
    let (mut state, init, table, _) = setup();
    let mut store = TableStore::new(&mut state.tables, &mut state.broadcast, init, table, BasicTable::new(vec![column("a"), column("b")], vec![]));
    let on_table = InvokeObj::Table(table);

    // subscribing gives the data, once per client
    let (res, msg) = store.handle_next(7, &init.mthd_subscribe, on_table, vec![]);
    assert!(msg.is_none());
    let data: TableInitData = from_cbor(res.ok().unwrap().unwrap()).unwrap();
    assert_eq!(data.keys.len(), 0);
    store.handle_next(7, &init.mthd_subscribe, on_table, vec![]);
    store.handle_next(9, &init.mthd_subscribe, on_table, vec![]);
    assert_eq!(store.subscribers, vec![7, 9]);

    // inserting rows tells the followers which keys they got; short rows are dropped
    let rows = vec![
        CborValue::Array(vec![CborValue::Integer(1), CborValue::Integer(2)]),
        CborValue::Array(vec![CborValue::Integer(3)]),
    ];
    let (res, msg) = store.handle_next(7, &init.mthd_insert, on_table, rows);
    assert!(matches!(res, Ok(None)));
    let msg = msg.unwrap();
    assert_eq!(signal_number(&msg), CborValue::Integer(33));
    match &msg {
        CborValue::Array(parts) => match &parts[1] {
            CborValue::Dict(fields) => {
                assert_eq!(fields[0].1, init.sig_updated.to_value());
                assert_eq!(
                    fields[2].1,
                    CborValue::Array(vec![
                        CborValue::Array(vec![CborValue::Integer(0)]),
                        CborValue::Array(vec![CborValue::Array(vec![CborValue::Integer(1), CborValue::Integer(2)])]),
                    ])
                );
            },
            _ => panic!("not a signal"),
        },
        _ => panic!("not a message"),
    }

    // removing and clearing raise their own signals
    let (_, msg) = store.handle_next(7, &init.mthd_remove, on_table, vec![CborValue::Array(vec![CborValue::Integer(0)])]);
    assert_eq!(signal_number(&msg.unwrap()), CborValue::Integer(33));
    let sel = Selection { name: "s".to_string(), rows: Some(vec![1]), row_ranges: None };
    let (res, msg) = store.handle_next(7, &init.mthd_update_selection, on_table, vec![sel.to_cbor()]);
    assert!(matches!(res, Ok(None)));
    assert!(msg.is_some());
    let (res, msg) = store.handle_next(7, &init.mthd_clear, on_table, vec![]);
    assert!(matches!(res, Ok(None)));
    assert!(msg.is_some());

    // calls on another target, or with arguments that do not read, are refused
    let (res, msg) = store.handle_next(7, &init.mthd_clear, InvokeObj::Document, vec![]);
    assert_eq!(res.err().unwrap().code, -32603);
    assert!(msg.is_none());
    let (res, msg) = store.handle_next(7, &init.mthd_update, on_table, vec![CborValue::Null]);
    assert_eq!(res.err().unwrap().code, -32602);
    assert!(msg.is_none());
    assert!(store.can_handle_next(&init.mthd_insert, &on_table));
    assert!(!store.can_handle_next(&init.mthd_insert, &InvokeObj::Document));

    store.forget_client(7);
    assert_eq!(store.subscribers, vec![9]);
}

#[test]
fn server_state_keeps_table_signals() {
    let (state, init, _, _) = setup();
    let s: &SignalState<()> = state.signals.get_data(init.sig_updated).unwrap();
    assert_eq!(s.name, "noo::tbl_updated");
}
