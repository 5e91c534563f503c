use colabrodo::cbor::decode_records;
use colabrodo::common::ServerMessages;
use colabrodo::mapped_client::{handle_next_mapped_bytes, ClientError, MappedNoodlesClient, UserError};
use colabrodo::recording::{Packet, PacketStamp};
use colabrodo::replay::{all_markers, session_records, ReplayerServerState, ReplayerState, SessionError};
use colabrodo::value::CborValue;

const MARKER_START: [u8; 8] = [0x83, 0x02, 0x03, 0x65, b's', b't', b'a', b'r'];

fn marker(stamp: u8, name: &str) -> Vec<u8> {
    let mut out = vec![0x83, 0x02, stamp, 0x60 + name.len() as u8];
    out.extend_from_slice(name.as_bytes());
    out
}

fn session(records: &[Vec<u8>]) -> Vec<u8> {
    let mut out = vec![0x9f];
    for r in records {
        out.extend_from_slice(r);
    }
    out.push(0xff);
    out
}

#[test]
fn records_are_read_from_bytes() {
    let r = decode_records(&[0x82, 0x01, 0x63, b'a', b'b', b'c']).unwrap();
    assert_eq!(r, vec![CborValue::Integer(1), CborValue::Text("abc".to_string())]);
    assert_eq!(decode_records(&[0x01]), None);
    assert_eq!(decode_records(&[0xff]), None);
    assert_eq!(decode_records(&[]), None);
}

#[test]
fn floats_are_read_by_their_bits() {
    let mut bytes = vec![0x81, 0xfb];
    bytes.extend_from_slice(&1.5f64.to_be_bytes());
    let r = decode_records(&bytes).unwrap();
    assert_eq!(r, vec![CborValue::Float(1.5f64.to_bits())]);
}

#[test]
fn a_session_of_markers_is_replayed() {
    let bytes = session(&[marker(3, "start"), marker(8, "end"), marker(10, "start")]);
    let st = ReplayerServerState::from_session(&bytes).unwrap();
    assert_eq!(st.packets.len(), 3);
    assert_eq!(st.marker_table.get("start"), Some(&CborValue::Integer(10)));
    assert_eq!(st.marker_table.get("end"), Some(&CborValue::Integer(8)));
    assert_eq!(st.last_packet_index, 0);
    assert_eq!(st.last_time, 0);

    let plain = ReplayerState::from_session(&bytes).unwrap();
    assert_eq!(plain.packets.len(), 3);
    assert_eq!(plain.last_packet, 0);
}

#[test]
fn a_session_with_other_packets_is_refused() {
    let write = vec![0x83, 0x01, 0x02, 0x41, 0x07];
    let bytes = session(&[marker(3, "start"), write]);
    assert!(matches!(ReplayerServerState::from_session(&bytes), Err(SessionError::NotOnlyMarkers)));
    assert!(matches!(session_records(&bytes), Err(SessionError::NotOnlyMarkers)));
}

#[test]
fn unreadable_sessions_are_refused() {
    assert!(matches!(ReplayerServerState::from_session(&[0x01]), Err(SessionError::Unreadable)));
    assert!(matches!(ReplayerState::from_session(&MARKER_START), Err(SessionError::Unreadable)));
    assert!(matches!(session_records(&[]), Err(SessionError::Unreadable)));
}

#[test]
fn records_that_are_no_packet_are_skipped() {
    let bytes = session(&[vec![0x09], marker(4, "m")]);
    let records = session_records(&bytes).unwrap();
    assert_eq!(records.len(), 2);
    assert!(all_markers(&records));
    let st = ReplayerServerState::from_session(&bytes).unwrap();
    assert_eq!(st.packets.len(), 1);
    assert!(matches!(&st.packets[0], Packet::DropMarker(PacketStamp(4), n) if n == "m"));
}

struct Seen {
    seen: Vec<ServerMessages>,
    fail: bool,
}

impl MappedNoodlesClient for Seen {
    fn handle_message(&mut self, message: ServerMessages, _content: &Vec<(CborValue, CborValue)>) -> Result<(), UserError> {
        self.seen.push(message);
        if self.fail {
            Err(UserError::InternalError)
        } else {
            Ok(())
        }
    }
}

#[test]
fn mapped_packs_are_read_from_bytes() {
    let mut s = Seen { seen: vec![], fail: false };
    let pack = [0x84, 0x00, 0xa0, 0x18, 0x21, 0xa0];
    assert!(matches!(handle_next_mapped_bytes(&pack, &mut s), Some(Ok(()))));
    assert_eq!(s.seen, vec![ServerMessages::MsgMethodCreate, ServerMessages::MsgSignalInvoke]);

    let mut empty = Seen { seen: vec![], fail: false };
    assert!(matches!(handle_next_mapped_bytes(&[0x80], &mut empty), Some(Ok(()))));
    assert!(empty.seen.is_empty());
}

#[test]
fn mapped_packs_that_stop_the_client() {
    let mut s = Seen { seen: vec![], fail: false };
    assert!(handle_next_mapped_bytes(&[0xff], &mut s).is_none());
    let too_wide = [0x82, 0x1b, 0x00, 0x00, 0x00, 0x01, 0x00, 0x00, 0x00, 0x00, 0xa0];
    assert!(handle_next_mapped_bytes(&too_wide, &mut s).is_none());
    assert!(s.seen.is_empty());
}

#[test]
fn mapped_packs_report_refusals() {
    let mut s = Seen { seen: vec![], fail: true };
    match handle_next_mapped_bytes(&[0x84, 0x00, 0xa0, 0x18, 0x21, 0xa0], &mut s) {
        Some(Err(ClientError::DecodeError(m))) => assert_eq!(m, "Message handler failed"),
        _ => panic!("expected the handler's refusal"),
    }
    assert_eq!(s.seen, vec![ServerMessages::MsgMethodCreate]);

    let mut ok = Seen { seen: vec![], fail: false };
    match handle_next_mapped_bytes(&[0x84, 0x00, 0xa0, 0x00, 0x01], &mut ok) {
        Some(Err(ClientError::InvalidRootMessage(m))) => {
            assert_eq!(m, "Message id was decoded as 0, but the message content is missing.")
        },
        _ => panic!("expected a refusal of the pack"),
    }
    assert_eq!(ok.seen, vec![ServerMessages::MsgMethodCreate]);
    match handle_next_mapped_bytes(&[0x83, 0x00, 0xa0, 0x00], &mut ok) {
        Some(Err(ClientError::InvalidRootMessage(m))) => assert_eq!(m, "Root array is not a multiple of 2"),
        _ => panic!("expected a refusal of the pack"),
    }
}
