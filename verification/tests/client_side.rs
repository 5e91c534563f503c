use colabrodo::client_state::{signal_target, invoke_target, ComponentList, Delegate, InvokeContext};
use colabrodo::client_messages::InvokeIDType;
use colabrodo::common::ServerMessages;
use colabrodo::mapped_client::{handle_next, root_ids_fit, ClientError, MappedNoodlesClient, UserError};
use colabrodo::nooid::NooID;
use colabrodo::recorder::{get_time_delta, header_bytes, message_stamp as recorder_stamp, packet_bytes, trim_u32, Message};
use colabrodo::recording::{end_pack, pack_record, parse_record, start_pack, Packet, PacketStamp};
use colabrodo::server_communication::SignalInvokeObj;
use colabrodo::table_protocol::{decode_table_signal, on_signal_fallible, TableSignal, SIG_TBL_RESET, SIG_TBL_ROWS_REMOVED, SIG_TBL_SELECTION_UPDATED, SIG_TBL_UPDATED};
use colabrodo::client_table::{BasicTable, TableDataStorage};
use colabrodo::table::TableInitData;
use colabrodo::value::CborValue;

#[derive(Debug, PartialEq)]
struct Del(u32);

impl Delegate for Del {
    fn on_delete(&mut self) {}
}

#[test]
fn record_packets_round_trip() {
    let packets = vec![
        Packet::WriteCBOR(PacketStamp(5), vec![1, 2, 3]),
        Packet::DropMarker(PacketStamp(9), "start".to_string()),
        Packet::BufferLocation("buf/0.bin".to_string()),
    ];
    let stamps: Vec<u8> = packets.iter().map(|p| p.message_stamp()).collect();
    assert_eq!(stamps, vec![1, 2, 3]);
    for p in packets {
        let list = pack_record(p);
        match parse_record(CborValue::Array(list)).unwrap() {
            Packet::WriteCBOR(t, b) => {
                assert_eq!(t.0, 5);
                assert_eq!(b, vec![1, 2, 3]);
            }
            Packet::DropMarker(t, s) => {
                assert_eq!(t.0, 9);
                assert_eq!(s, "start");
            }
            Packet::BufferLocation(s) => assert_eq!(s, "buf/0.bin"),
        }
    }
    assert!(parse_record(CborValue::Array(vec![CborValue::Integer(2), CborValue::Integer(1)])).is_none());
    assert!(parse_record(CborValue::Array(vec![CborValue::Integer(4), CborValue::Text("x".to_string())])).is_none());
    assert!(parse_record(CborValue::Integer(1)).is_none());

    let mut sink = vec![7u8];
    start_pack(&mut sink);
    end_pack(&mut sink);
    assert_eq!(sink, vec![7, 0x9f, 0xff]);
}

#[test]
fn recorder_layout() {
    assert_eq!(trim_u32(0x0012_3456), [0x56, 0x34, 0x12]);
    assert_eq!(get_time_delta(100, 400), [0x2c, 0x01, 0x00]);
    assert_eq!(header_bytes(0x0102), vec![b'n', b'o', b'o', 1, 0x02, 0x01, 0, 0, 0, 0, 0, 0]);
    assert_eq!(recorder_stamp(&Message::WriteCBOR(vec![])), 1);
    assert_eq!(recorder_stamp(&Message::DropMarker(String::new())), 2);
    assert_eq!(recorder_stamp(&Message::Stop), 255);
    let p = packet_bytes(&Message::DropMarker("ab".to_string()), [1, 0, 0]);
    assert_eq!(p, vec![2, 1, 0, 0, 2, 0, 0, 0, b'a', b'b']);
    let q = packet_bytes(&Message::Stop, [0, 0, 0]);
    assert_eq!(q, vec![255, 0, 0, 0, 0, 0, 0, 0]);
}

#[test]
fn component_list_names() {
    let mut list: ComponentList<Del> = ComponentList::new();
    let a = NooID::new(0, 0);
    let b = NooID::new(1, 0);
    list.on_create(a, Some("alpha".to_string()), Del(1));
    list.on_create(b, None, Del(2));
    assert_eq!(list.get_id_by_name("alpha"), Some(a));
    assert_eq!(list.get_state_by_name("alpha"), Some(&Del(1)));
    assert_eq!(list.find(&b), Some(&Del(2)));

    let taken = list.take(&b).unwrap();
    assert_eq!(list.find(&b), None);
    list.replace(&b, taken);
    assert_eq!(list.find(&b), Some(&Del(2)));

    assert_eq!(list.on_delete(a), Del(1));
    assert_eq!(list.get_id_by_name("alpha"), None);
    list.clear();
    assert_eq!(list.find(&b), None);
}

#[test]
fn routing_of_invocations_and_signals() {
    let e = NooID::new(1, 0);
    assert_eq!(invoke_target(InvokeContext::Document), None);
    assert_eq!(invoke_target(InvokeContext::Plot(e)), Some(InvokeIDType::Plot(e)));
    assert_eq!(signal_target(&None), Some(InvokeContext::Document));
    let ctx = SignalInvokeObj { entity: None, table: Some(e), plot: Some(NooID::new(2, 0)) };
    assert_eq!(signal_target(&Some(ctx)), Some(InvokeContext::Plot(NooID::new(2, 0))));
    let empty: SignalInvokeObj<NooID, NooID, NooID> = SignalInvokeObj::default();
    assert_eq!(signal_target(&Some(empty)), None);
}

#[test]
fn table_signals_reach_the_storage() {
    let mut signals: ComponentList<Del> = ComponentList::new();
    signals.on_create(NooID::new(0, 0), Some(SIG_TBL_RESET.to_string()), Del(0));
    signals.on_create(NooID::new(1, 0), Some(SIG_TBL_UPDATED.to_string()), Del(1));
    signals.on_create(NooID::new(2, 0), Some(SIG_TBL_ROWS_REMOVED.to_string()), Del(2));
    signals.on_create(NooID::new(3, 0), Some(SIG_TBL_SELECTION_UPDATED.to_string()), Del(3));

    let mut table = Some(BasicTable::default());
    table.as_mut().unwrap().on_init_data(TableInitData {
        columns: vec![],
        keys: vec![1],
        data: vec![vec![CborValue::Integer(1)]],
        selections: None,
    });
    let args = vec![
        CborValue::Array(vec![CborValue::Integer(2)]),
        CborValue::Array(vec![CborValue::Array(vec![CborValue::Integer(20)])]),
    ];
    assert!(on_signal_fallible(&mut table, NooID::new(1, 0), &signals, args).is_some());
    assert_eq!(table.as_ref().unwrap().current_data().len(), 2);
    assert!(on_signal_fallible(&mut table, NooID::new(2, 0), &signals, vec![CborValue::Null]).is_none());
    assert!(on_signal_fallible(&mut table, NooID::new(2, 0), &signals, vec![CborValue::Array(vec![CborValue::Integer(1)])]).is_some());
    assert_eq!(table.as_ref().unwrap().current_data().len(), 1);
    assert!(matches!(decode_table_signal(NooID::new(9, 9), &signals, vec![]), Some(TableSignal::Other)));
    assert!(on_signal_fallible(&mut table, NooID::new(0, 0), &signals, vec![]).is_some());
    assert!(table.as_ref().unwrap().current_data().is_empty());

    let mut none: Option<BasicTable> = None;
    assert!(on_signal_fallible(&mut none, NooID::new(0, 0), &signals, vec![]).is_some());
}

struct Recorder {
    seen: Vec<ServerMessages>,
    fail: bool,
}

impl MappedNoodlesClient for Recorder {
    fn handle_message(&mut self, message: ServerMessages, _content: &Vec<(CborValue, CborValue)>) -> Result<(), UserError> {
        self.seen.push(message);
        if self.fail {
            Err(UserError::InternalError)
        } else {
            Ok(())
        }
    }
}

#[test]
fn mapped_client_checks_the_pack() {
    let mut r = Recorder { seen: vec![], fail: false };
    let pack = CborValue::Array(vec![CborValue::Integer(0), CborValue::Dict(vec![]), CborValue::Integer(33), CborValue::Dict(vec![])]);
    assert!(root_ids_fit(&pack));
    assert!(handle_next(&pack, &mut r).is_ok());
    assert_eq!(r.seen, vec![ServerMessages::MsgMethodCreate, ServerMessages::MsgSignalInvoke]);

    match handle_next(&CborValue::Integer(3), &mut r) {
        Err(ClientError::InvalidRootMessage(m)) => assert_eq!(m, "Root is not an array"),
        _ => panic!("expected a refusal"),
    }
    match handle_next(&CborValue::Array(vec![CborValue::Integer(0)]), &mut r) {
        Err(ClientError::InvalidRootMessage(m)) => assert_eq!(m, "Root array is not a multiple of 2"),
        _ => panic!("expected a refusal"),
    }
    let unknown = CborValue::Array(vec![CborValue::Integer(0), CborValue::Dict(vec![]), CborValue::Integer(77), CborValue::Dict(vec![])]);
    match handle_next(&unknown, &mut r) {
        Err(ClientError::InvalidRootMessage(m)) => assert_eq!(
            m,
            "Message id was decoded as 77, but this does not correspond with a known message type."
        ),
        _ => panic!("expected a refusal"),
    }
    let no_map = CborValue::Array(vec![CborValue::Integer(12), CborValue::Null]);
    match handle_next(&no_map, &mut r) {
        Err(ClientError::InvalidRootMessage(m)) => assert_eq!(m, "Message id was decoded as 12, but the message content is missing."),
        _ => panic!("expected a refusal"),
    }
    let no_id = CborValue::Array(vec![CborValue::Null, CborValue::Dict(vec![])]);
    match handle_next(&no_id, &mut r) {
        Err(ClientError::InvalidRootMessage(m)) => assert_eq!(m, "Missing message id value"),
        _ => panic!("expected a refusal"),
    }
    let huge = CborValue::Array(vec![CborValue::Integer(1i128 << 40), CborValue::Dict(vec![])]);
    assert!(!root_ids_fit(&huge));

    let mut failing = Recorder { seen: vec![], fail: true };
    assert!(matches!(handle_next(&pack, &mut failing), Err(ClientError::DecodeError(_))));
    assert_eq!(failing.seen.len(), 1);
}
