use colabrodo::client_components::{OutgoingMessage, UserClientNext};
use colabrodo::client_dispatch::{
    decode_pack, decode_server_message, handle_next, send_method, ClientState, DelegateMaker, DocumentDelegate, FromServer,
    UpdatableDelegate,
};
use colabrodo::client_state::{ComponentList, DefaultDocumentDelegate, Delegate, InvokeContext};
use colabrodo::client_table::BasicTable;
use colabrodo::table_delegate::AdvTableDelegate;
use colabrodo::common::{ComponentType, ServerMessages};
use colabrodo::nooid::NooID;
use colabrodo::server_communication::{DocumentUpdate, MessageMethodReply};
use colabrodo::value::CborValue;

#[derive(Debug, Default)]
struct Recorded {
    kind: Option<ComponentType>,
    updates: u32,
    signals: Vec<NooID>,
    replies: Vec<u128>,
}

impl Delegate for Recorded {
    fn on_delete(&mut self) {}
}

impl UpdatableDelegate for Recorded {
    fn on_update(&mut self, _state: CborValue) {
        self.updates += 1;
    }

    fn on_signal(&mut self, id: NooID, _signals: &ComponentList<Self>, _args: Vec<CborValue>) {
        self.signals.push(id);
    }

    fn on_method_reply(&mut self, invoke_id: u128, _reply: MessageMethodReply) {
        self.replies.push(invoke_id);
    }
}

#[derive(Debug, Default)]
struct Doc {
    generation: u32,
    ready: bool,
    updates: u32,
    signals: u32,
    replies: u32,
}

impl DocumentDelegate for Doc {
    fn on_signal(&mut self, _id: NooID, _args: Vec<CborValue>) {
        self.signals += 1;
    }

    fn on_method_reply(&mut self, _invoke_id: u128, _reply: MessageMethodReply) {
        self.replies += 1;
    }

    fn on_document_update(&mut self, _update: DocumentUpdate<NooID, NooID>) {
        self.updates += 1;
    }

    fn on_ready(&mut self) {
        self.ready = true;
    }
}

#[derive(Default)]
struct Maker {
    documents: u32,
}

impl DelegateMaker<Recorded, Doc> for Maker {
    fn make_delegate(&mut self, kind: ComponentType, _id: NooID, _content: &CborValue) -> Recorded {
        Recorded { kind: Some(kind), ..Default::default() }
    }

    fn make_document(&mut self) -> Doc {
        self.documents += 1;
        Doc { generation: self.documents, ..Default::default() }
    }
}

fn txt(s: &str) -> CborValue {
    CborValue::Text(s.to_string())
}

fn tagged(id: NooID, name: Option<&str>) -> CborValue {
    let mut fields = vec![(txt("id"), id.to_value())];
    if let Some(n) = name {
        fields.push((txt("name"), txt(n)));
    }
    CborValue::Dict(fields)
}

fn pack(messages: Vec<(ServerMessages, CborValue)>) -> CborValue {
    let mut out = Vec::new();
    for (m, v) in messages {
        out.push(CborValue::Integer(m.to_u32() as i128));
        out.push(v);
    }
    CborValue::Array(out)
}

fn new_state() -> ClientState<Recorded, Doc, Maker> {
    ClientState::new(Maker::default())
}

#[test]
fn create_names_and_deletes_components() {
    let mut state = new_state();
    let m = NooID::new(0, 0);
    let e = NooID::new(3, 1);
    let root = pack(vec![
        (ServerMessages::MsgMethodCreate, CborValue::Dict(vec![
            (txt("id"), m.to_value()),
            (txt("name"), txt("noo::tbl_subscribe")),
            (txt("arg_doc"), CborValue::Array(vec![])),
        ])),
        (ServerMessages::MsgEntityCreate, tagged(e, Some("cube"))),
    ]);
    assert!(handle_next(&mut state, root).is_ok());
    let lists = &state.delegate_lists;
    assert_eq!(lists.method_list.get_id_by_name("noo::tbl_subscribe"), Some(m));
    assert_eq!(lists.entity_list.get_id_by_name("cube"), Some(e));
    assert_eq!(lists.entity_list.find(&e).unwrap().kind, Some(ComponentType::Entity));
    assert!(lists.table_list.find(&e).is_none());

    let root = pack(vec![(ServerMessages::MsgEntityDelete, tagged(e, None))]);
    assert!(handle_next(&mut state, root).is_ok());
    assert!(state.delegate_lists.entity_list.find(&e).is_none());
    assert_eq!(state.delegate_lists.entity_list.get_id_by_name("cube"), None);
    assert_eq!(state.delegate_lists.method_list.get_id_by_name("noo::tbl_subscribe"), Some(m));
}

#[test]
fn updates_reach_the_delegate() {
    let mut state = new_state();
    let t = NooID::new(1, 0);
    let root = pack(vec![
        (ServerMessages::MsgTableCreate, tagged(t, None)),
        (ServerMessages::MsgTableUpdate, tagged(t, None)),
        (ServerMessages::MsgTableUpdate, tagged(t, None)),
        (ServerMessages::MsgTableUpdate, tagged(NooID::new(9, 9), None)),
    ]);
    assert!(handle_next(&mut state, root).is_ok());
    assert_eq!(state.delegate_lists.table_list.find(&t).unwrap().updates, 2);
    assert!(state.delegate_lists.table_list.find(&NooID::new(9, 9)).is_none());
}

#[test]
fn method_name_is_required() {
    let r = decode_server_message(ServerMessages::MsgMethodCreate, tagged(NooID::new(0, 0), None));
    assert!(r.is_err());
    let r = decode_server_message(ServerMessages::MsgEntityCreate, tagged(NooID::new(0, 0), None));
    match r {
        Ok(FromServer::Create { kind, id, name, .. }) => {
            assert_eq!(kind, ComponentType::Entity);
            assert_eq!(id, NooID::new(0, 0));
            assert_eq!(name, None);
        }
        _ => panic!("entity create should read"),
    }
    let r = decode_server_message(ServerMessages::MsgPlotDelete, CborValue::Integer(3));
    assert!(r.is_err());
}

#[test]
fn signals_go_to_their_target() {
    let mut state = new_state();
    let e = NooID::new(2, 0);
    let p = NooID::new(4, 0);
    let s = NooID::new(7, 0);
    let to_entity = CborValue::Dict(vec![
        (txt("id"), s.to_value()),
        (txt("context"), CborValue::Dict(vec![(txt("entity"), e.to_value()), (txt("plot"), p.to_value())])),
        (txt("signal_data"), CborValue::Array(vec![CborValue::Integer(1)])),
    ]);
    let to_document = CborValue::Dict(vec![(txt("id"), s.to_value()), (txt("signal_data"), CborValue::Array(vec![]))]);
    let root = pack(vec![
        (ServerMessages::MsgEntityCreate, tagged(e, None)),
        (ServerMessages::MsgPlotCreate, tagged(p, None)),
        (ServerMessages::MsgSignalInvoke, to_entity),
        (ServerMessages::MsgSignalInvoke, to_document),
    ]);
    assert!(handle_next(&mut state, root).is_ok());
    assert_eq!(state.delegate_lists.entity_list.find(&e).unwrap().signals, vec![s]);
    assert!(state.delegate_lists.plot_list.find(&p).unwrap().signals.is_empty());
    assert_eq!(state.delegate_lists.document.as_ref().unwrap().signals, 1);
}

#[test]
fn replies_reach_the_invoker_once() {
    let mut state = new_state();
    let t = NooID::new(5, 0);
    assert!(handle_next(&mut state, pack(vec![(ServerMessages::MsgTableCreate, tagged(t, None))])).is_ok());
    let (invoke_id, out) = state.invoke_method(NooID::new(0, 0), InvokeContext::Table(t), vec![]);
    let id_text = match out {
        OutgoingMessage::MethodInvoke(msg) => {
            assert_eq!(msg.method, NooID::new(0, 0));
            msg.invoke_id.unwrap()
        }
        _ => panic!("an invocation is sent"),
    };
    let hex = format!("{:032x}", invoke_id);
    let expected = format!("{}-{}-{}-{}-{}", &hex[0..8], &hex[8..12], &hex[12..16], &hex[16..20], &hex[20..32]);
    assert_eq!(id_text, expected);
    let reply = CborValue::Dict(vec![(txt("invoke_id"), txt(&id_text)), (txt("result"), CborValue::Integer(4))]);
    assert!(handle_next(&mut state, pack(vec![(ServerMessages::MsgMethodReply, reply)])).is_ok());
    assert_eq!(state.delegate_lists.table_list.find(&t).unwrap().replies, vec![invoke_id]);

    let again = CborValue::Dict(vec![(txt("invoke_id"), txt(&id_text))]);
    assert!(handle_next(&mut state, pack(vec![(ServerMessages::MsgMethodReply, again)])).is_ok());
    assert_eq!(state.delegate_lists.table_list.find(&t).unwrap().replies.len(), 1);

    let bad = CborValue::Dict(vec![(txt("invoke_id"), txt("not a uuid"))]);
    match handle_next(&mut state, pack(vec![(ServerMessages::MsgMethodReply, bad)])) {
        Err(UserClientNext::MethodError) => {}
        other => panic!("unexpected {:?}", other),
    }
}

#[test]
fn document_messages() {
    let mut state = new_state();
    let e = NooID::new(1, 1);
    let update = CborValue::Dict(vec![(txt("methods_list"), CborValue::Array(vec![NooID::new(0, 0).to_value()]))]);
    let root = pack(vec![
        (ServerMessages::MsgEntityCreate, tagged(e, Some("thing"))),
        (ServerMessages::MsgDocumentUpdate, update),
        (ServerMessages::MsgDocumentInitialized, CborValue::Dict(vec![])),
    ]);
    assert!(handle_next(&mut state, root).is_ok());
    {
        let doc = state.delegate_lists.document.as_ref().unwrap();
        assert!(doc.ready);
        assert_eq!(doc.updates, 1);
        assert_eq!(doc.generation, 1);
    }
    assert!(handle_next(&mut state, pack(vec![(ServerMessages::MsgDocumentReset, CborValue::Dict(vec![]))])).is_ok());
    assert!(state.delegate_lists.entity_list.find(&e).is_none());
    assert_eq!(state.delegate_lists.entity_list.get_id_by_name("thing"), None);
    let doc = state.delegate_lists.document.as_ref().unwrap();
    assert_eq!(doc.generation, 2);
    assert!(!doc.ready);
}

#[test]
fn unreadable_packs_change_nothing() {
    let mut state = new_state();
    match handle_next(&mut state, CborValue::Integer(1)) {
        Err(UserClientNext::DecodeError(t)) => assert_eq!(t, "Unable to read the messages"),
        other => panic!("unexpected {:?}", other),
    }
    let e = NooID::new(0, 0);
    let root = pack(vec![
        (ServerMessages::MsgEntityCreate, tagged(e, None)),
        (ServerMessages::MsgEntityCreate, CborValue::Integer(2)),
    ]);
    assert!(handle_next(&mut state, root).is_err());
    assert!(state.delegate_lists.entity_list.find(&e).is_none());
    assert!(decode_pack(pack(vec![(ServerMessages::Unknown, CborValue::Dict(vec![]))])).is_none());
}

#[test]
fn deleting_an_unknown_component_stops() {
    let mut state = new_state();
    let e = NooID::new(0, 0);
    let root = pack(vec![
        (ServerMessages::MsgEntityCreate, tagged(e, None)),
        (ServerMessages::MsgLightDelete, tagged(NooID::new(8, 0), None)),
        (ServerMessages::MsgEntityDelete, tagged(e, None)),
    ]);
    match handle_next(&mut state, root) {
        Err(UserClientNext::DecodeError(t)) => assert_eq!(t, "Unknown component deleted"),
        other => panic!("unexpected {:?}", other),
    }
    assert!(state.delegate_lists.entity_list.find(&e).is_some());
}

#[derive(Default)]
struct TableMaker;

impl DelegateMaker<AdvTableDelegate<BasicTable>, DefaultDocumentDelegate> for TableMaker {
    fn make_delegate(&mut self, _kind: ComponentType, id: NooID, _content: &CborValue) -> AdvTableDelegate<BasicTable> {
        AdvTableDelegate::new(id)
    }

    fn make_document(&mut self) -> DefaultDocumentDelegate {
        DefaultDocumentDelegate::default()
    }
}

fn named(id: NooID, name: &str) -> CborValue {
    CborValue::Dict(vec![(txt("id"), id.to_value()), (txt("name"), txt(name)), (txt("arg_doc"), CborValue::Array(vec![]))])
}

#[test]
fn table_delegate_subscribes_and_follows_signals() {
    let mut state: ClientState<AdvTableDelegate<BasicTable>, DefaultDocumentDelegate, TableMaker> =
        ClientState::new(TableMaker);
    let t = NooID::new(0, 0);
    let root = pack(vec![
        (ServerMessages::MsgMethodCreate, named(NooID::new(0, 0), "noo::tbl_subscribe")),
        (ServerMessages::MsgMethodCreate, named(NooID::new(1, 0), "noo::tbl_insert")),
        (ServerMessages::MsgSignalCreate, named(NooID::new(0, 0), "noo::tbl_reset")),
        (ServerMessages::MsgSignalCreate, named(NooID::new(1, 0), "noo::tbl_updated")),
        (ServerMessages::MsgSignalCreate, named(NooID::new(2, 0), "noo::tbl_rows_removed")),
        (ServerMessages::MsgSignalCreate, named(NooID::new(3, 0), "noo::tbl_selection_updated")),
        (ServerMessages::MsgTableCreate, tagged(t, Some("data"))),
    ]);
    assert!(handle_next(&mut state, root).is_ok());

    let mut del = state.delegate_lists.table_list.take(&t).unwrap();
    let (id, out) = del.subscribe(&mut state, BasicTable::default());
    state.delegate_lists.table_list.replace(&t, del);
    let id_text = match out {
        OutgoingMessage::MethodInvoke(msg) => {
            assert_eq!(msg.method, NooID::new(0, 0));
            msg.invoke_id.unwrap()
        }
        _ => panic!("a subscription is sent"),
    };

    let init = CborValue::Dict(vec![
        (txt("columns"), CborValue::Array(vec![CborValue::Dict(vec![(txt("name"), txt("a")), (txt("type"), txt("INTEGER"))])])),
        (txt("keys"), CborValue::Array(vec![CborValue::Integer(5)])),
        (txt("data"), CborValue::Array(vec![CborValue::Array(vec![CborValue::Integer(50)])])),
    ]);
    let reply = CborValue::Dict(vec![(txt("invoke_id"), txt(&id_text)), (txt("result"), init)]);
    assert!(handle_next(&mut state, pack(vec![(ServerMessages::MsgMethodReply, reply)])).is_ok());
    {
        let table = state.delegate_lists.table_list.find(&t).unwrap().table().unwrap();
        assert_eq!(table.header().len(), 1);
        assert_eq!(table.current_data().get(&5), Some(&vec![CborValue::Integer(50)]));
    }

    let updated = CborValue::Dict(vec![
        (txt("id"), NooID::new(1, 0).to_value()),
        (txt("context"), CborValue::Dict(vec![(txt("table"), t.to_value())])),
        (txt("signal_data"), CborValue::Array(vec![
            CborValue::Array(vec![CborValue::Integer(6)]),
            CborValue::Array(vec![CborValue::Array(vec![CborValue::Integer(60)])]),
        ])),
    ]);
    assert!(handle_next(&mut state, pack(vec![(ServerMessages::MsgSignalInvoke, updated)])).is_ok());
    {
        let table = state.delegate_lists.table_list.find(&t).unwrap().table().unwrap();
        assert_eq!(table.current_data().get(&6), Some(&vec![CborValue::Integer(60)]));
    }

    let del = state.delegate_lists.table_list.take(&t).unwrap();
    let (_, out) = del.ask_insert(&mut state, vec![vec![CborValue::Integer(1)]]);
    state.delegate_lists.table_list.replace(&t, del);
    match out {
        OutgoingMessage::MethodInvoke(msg) => {
            assert_eq!(msg.method, NooID::new(1, 0));
            assert_eq!(msg.args, vec![CborValue::Array(vec![CborValue::Array(vec![CborValue::Integer(1)])])]);
        }
        _ => panic!("an insert is sent"),
    }

    let reset = CborValue::Dict(vec![
        (txt("id"), NooID::new(0, 0).to_value()),
        (txt("context"), CborValue::Dict(vec![(txt("table"), t.to_value())])),
        (txt("signal_data"), CborValue::Array(vec![])),
    ]);
    assert!(handle_next(&mut state, pack(vec![(ServerMessages::MsgSignalInvoke, reset)])).is_ok());
    let table = state.delegate_lists.table_list.find(&t).unwrap().table().unwrap();
    assert!(table.current_data().is_empty());
}

#[test]
fn send_method_by_name() {
    let mut state = new_state();
    let root = pack(vec![(ServerMessages::MsgMethodCreate, named_method(NooID::new(4, 0), "noo::set_position"))]);
    assert!(handle_next(&mut state, root).is_ok());
    let (id, msg) = send_method(&state.delegate_lists, None, "noo::set_position", vec![CborValue::Integer(1)]).unwrap();
    assert_eq!(msg.method, NooID::new(4, 0));
    assert_eq!(msg.args, vec![CborValue::Integer(1)]);
    assert_eq!(msg.invoke_id.unwrap(), uuid::Uuid::from_u128(id).to_string());
    assert!(send_method(&state.delegate_lists, None, "noo::missing", vec![]).is_none());
}

fn named_method(id: NooID, name: &str) -> CborValue {
    CborValue::Dict(vec![(txt("id"), id.to_value()), (txt("name"), txt(name)), (txt("arg_doc"), CborValue::Array(vec![]))])
}

#[test]
fn created_states_are_read() {
    let b = NooID::new(0, 0);
    let good = CborValue::Dict(vec![(txt("id"), b.to_value()), (txt("size"), CborValue::Integer(3))]);
    assert!(matches!(
        decode_server_message(ServerMessages::MsgBufferCreate, good),
        Ok(FromServer::Create { kind: ComponentType::Buffer, .. })
    ));
    let no_size = CborValue::Dict(vec![(txt("id"), b.to_value())]);
    assert!(decode_server_message(ServerMessages::MsgBufferCreate, no_size).is_err());
    let no_image = CborValue::Dict(vec![(txt("id"), b.to_value())]);
    assert!(decode_server_message(ServerMessages::MsgTextureCreate, no_image).is_err());
    let view = CborValue::Dict(vec![
        (txt("id"), b.to_value()),
        (txt("source_buffer"), b.to_value()),
        (txt("type"), txt("IMAGE")),
        (txt("offset"), CborValue::Integer(0)),
        (txt("length"), CborValue::Integer(8)),
    ]);
    assert!(decode_server_message(ServerMessages::MsgBufferViewCreate, view).is_ok());
}
