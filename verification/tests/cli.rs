use colabrodo::cli_state::{default_name, extract_method_arg_names, merge_values, CLIState};
use colabrodo::common::{ComponentType, ServerMessages};
use colabrodo::mapped_client::{handle_next, MappedNoodlesClient};
use colabrodo::nooid::NooID;
use colabrodo::recording::{pack_record, Packet, PacketStamp};
use colabrodo::replay::{ReplayerServerState, ReplayerState};
use colabrodo::value::CborValue;
use colabrodo::value_tools::TextMap;

fn t(s: &str) -> CborValue {
    CborValue::Text(s.to_string())
}

fn fields(id: NooID, extra: Vec<(&str, CborValue)>) -> Vec<(CborValue, CborValue)> {
    let mut out = vec![(t("id"), id.to_value())];
    for (k, v) in extra {
        out.push((t(k), v));
    }
    out
}

#[test]
fn default_names() {
    assert_eq!(default_name(ComponentType::Entity, NooID::new(3, 1)), "Entity ID(3,1)");
    assert_eq!(default_name(ComponentType::BufferView, NooID::new(12, 0)), "BufferView ID(12,0)");
}

#[test]
fn merge_overwrites_in_order() {
    let mut dest = TextMap::new();
    dest.insert("a".to_string(), CborValue::Integer(1));
    merge_values(vec![(t("a"), CborValue::Integer(2)), (t("b"), CborValue::Integer(3)), (t("a"), CborValue::Integer(4))], &mut dest);
    assert_eq!(dest.get("a"), Some(&CborValue::Integer(4)));
    assert_eq!(dest.get("b"), Some(&CborValue::Integer(3)));
}

#[test]
fn cli_state_tracks_components() {
    let mut state = CLIState::new();
    let e = NooID::new(0, 0);
    let m = NooID::new(1, 0);
    assert!(state.handle_message(ServerMessages::MsgEntityCreate, &fields(e, vec![])).is_ok());
    assert!(state
        .handle_message(ServerMessages::MsgMethodCreate, &fields(m, vec![("name", t("ping")), ("doc", t("Replies"))]))
        .is_ok());
    assert_eq!(state.listing(ComponentType::Entity), vec![(e, "Entity ID(0,0)".to_string())]);
    assert_eq!(state.listing(ComponentType::Method), vec![(m, "ping".to_string())]);
    assert!(state.listing(ComponentType::Table).is_empty());

    assert!(state.handle_message(ServerMessages::MsgEntityUpdate, &fields(e, vec![("name", t("cube"))])).is_ok());
    assert_eq!(state.find(ComponentType::Entity, e).unwrap().get("name"), Some(&t("cube")));

    // updating an unknown component is ignored
    assert!(state.handle_message(ServerMessages::MsgTableUpdate, &fields(NooID::new(5, 5), vec![])).is_ok());
    assert!(state.find(ComponentType::Table, NooID::new(5, 5)).is_none());

    // deleting an unknown component fails
    assert!(state.handle_message(ServerMessages::MsgTableDelete, &fields(NooID::new(5, 5), vec![])).is_err());
    // a message without an identifier fails
    assert!(state.handle_message(ServerMessages::MsgEntityCreate, &vec![]).is_err());

    assert!(state.handle_message(ServerMessages::MsgEntityDelete, &fields(e, vec![])).is_ok());
    assert!(state.find(ComponentType::Entity, e).is_none());

    assert!(state.handle_message(ServerMessages::MsgDocumentUpdate, &vec![(t("methods_list"), CborValue::Array(vec![]))]).is_ok());
    assert_eq!(state.document().get("methods_list"), Some(&CborValue::Array(vec![])));
    assert!(state.handle_message(ServerMessages::MsgDocumentUpdate, &vec![(CborValue::Integer(1), CborValue::Null)]).is_err());

    assert!(state.handle_message(ServerMessages::MsgDocumentReset, &vec![]).is_ok());
    assert!(state.find(ComponentType::Method, m).is_none());
    assert!(state.document().get("methods_list").is_none());
}

#[test]
fn cli_state_awaits_replies() {
    let mut state = CLIState::new();
    let msg = state.start_invoke(NooID::new(2, 0), vec![CborValue::Integer(7)]);
    let id = msg.invoke_id.clone().unwrap();
    assert_eq!(msg.method, NooID::new(2, 0));
    assert!(msg.context.is_none());
    assert!(state.is_awaited(&id));
    assert!(state.handle_message(ServerMessages::MsgMethodReply, &vec![(t("invoke_id"), t(&id))]).is_ok());
    assert!(!state.is_awaited(&id));
    assert!(state.handle_message(ServerMessages::MsgMethodReply, &vec![(t("result"), CborValue::Null)]).is_err());
}

#[test]
fn cli_state_through_a_pack() {
    let mut state = CLIState::new();
    let root = CborValue::Array(vec![
        CborValue::Integer(4),
        CborValue::Dict(fields(NooID::new(0, 0), vec![("name", t("thing"))])),
    ]);
    assert!(handle_next(&root, &mut state).is_ok());
    assert_eq!(state.listing(ComponentType::Entity), vec![(NooID::new(0, 0), "thing".to_string())]);
}

#[test]
fn method_argument_names() {
    let mut item = TextMap::new();
    item.insert(
        "arg_doc".to_string(),
        CborValue::Array(vec![
            CborValue::Dict(vec![(t("name"), t("x")), (t("doc"), t("first"))]),
            CborValue::Integer(3),
            CborValue::Dict(vec![(t("doc"), t("nameless"))]),
            CborValue::Dict(vec![(t("name"), t("y"))]),
        ]),
    );
    assert_eq!(extract_method_arg_names(&item), Some(vec!["x".to_string(), "y".to_string()]));
    let empty = TextMap::new();
    assert_eq!(extract_method_arg_names(&empty), None);
}

#[test]
fn replay_markers() {
    let records = vec![
        CborValue::Array(pack_record(Packet::DropMarker(PacketStamp(3), "start".to_string()))),
        CborValue::Integer(9),
        CborValue::Array(pack_record(Packet::DropMarker(PacketStamp(8), "end".to_string()))),
        CborValue::Array(pack_record(Packet::DropMarker(PacketStamp(10), "start".to_string()))),
    ];
    let state = ReplayerState::new(records);
    assert_eq!(state.packets.len(), 3);
    assert_eq!(state.marker_table.get("start"), Some(&CborValue::Integer(10)));
    assert_eq!(state.marker_table.get("end"), Some(&CborValue::Integer(8)));
    assert_eq!(state.last_packet, 0);
}

#[test]
fn replay_advances_through_messages() {
    let mut state = ReplayerServerState::new(vec![]);
    state.packets = vec![
        Packet::DropMarker(PacketStamp(1), "a".to_string()),
        Packet::WriteCBOR(PacketStamp(2), vec![1]),
        Packet::BufferLocation("b.bin".to_string()),
        Packet::WriteCBOR(PacketStamp(5), vec![2]),
        Packet::WriteCBOR(PacketStamp(9), vec![3]),
    ];
    state.marker_table.insert("later".to_string(), CborValue::Integer(9));
    state.marker_table.insert("early".to_string(), CborValue::Integer(0));

    let (reached, data) = state.advance_by_time(4);
    assert!(reached.is_some());
    assert_eq!(data, vec![vec![1], vec![2]]);
    assert_eq!(state.last_packet_index, 4);

    let (reached, data) = state.advance_by_marker("early".to_string());
    assert!(reached.is_none());
    assert!(data.is_empty());
    let (reached, data) = state.advance_by_marker("missing".to_string());
    assert!(reached.is_none());
    assert!(data.is_empty());

    let (reached, data) = state.advance_by_marker("later".to_string());
    assert!(reached.is_some());
    assert_eq!(data, vec![vec![3]]);

    let (reached, data) = state.advance_to_time(100);
    assert!(reached.is_none());
    assert!(data.is_empty());
    assert!(state.advance().is_none());
}
