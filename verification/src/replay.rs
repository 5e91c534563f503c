//! The state of a session replay: the packets of a recording, and the time
//! at which each named marker was dropped.
use vstd::prelude::*;
use crate::recording::{Packet, PacketModel, spec_parse_record, parse_record};
use crate::value::{CborValue, ValueModel, models_of, lemma_models_of_ext};
use crate::cbor::{cbor_item, decode_records};
use crate::value_tools::TextMap;

verus! {

/// The packets that can be read from the records of a recording, in order;
/// records that are no packet are skipped.
pub open spec fn spec_parsed(records: Seq<ValueModel>) -> Seq<PacketModel>
    decreases records.len(),
{
    if records.len() == 0 {
        Seq::empty()
    } else {
        match spec_parse_record(records.last()) {
            Some(p) => spec_parsed(records.drop_last()).push(p),
            None => spec_parsed(records.drop_last()),
        }
    }
}

/// The time of each marker among packets; a later marker of the same name wins.
pub open spec fn spec_markers(packets: Seq<PacketModel>) -> Map<Seq<char>, ValueModel>
    decreases packets.len(),
{
    if packets.len() == 0 {
        Map::empty()
    } else {
        match packets.last() {
            PacketModel::DropMarker(t, name) => spec_markers(packets.drop_last()).insert(name, ValueModel::Integer(t as int)),
            _ => spec_markers(packets.drop_last()),
        }
    }
}

/// Every record that reads as a packet reads as a marker.
pub open spec fn only_markers(records: Seq<ValueModel>) -> bool {
    forall|i: int| 0 <= i < records.len() ==> (#[trigger] spec_parse_record(records[i]) matches Some(p) ==> p is DropMarker)
}

/// Why a session file cannot be replayed.
#[derive(Debug)]
pub enum SessionError {
    /// The bytes are no CBOR array of records.
    Unreadable,
    /// A record is a packet other than a marker, which cannot be replayed.
    NotOnlyMarkers,
}

/// Whether every record that reads as a packet reads as a marker.
pub fn all_markers(records: &Vec<CborValue>) -> (r: bool)
    ensures
        r == only_markers(records.deep_view()),
{
    let ghost recs = records.deep_view();
    let mut i: usize = 0;
    while i < records.len()
        invariant
            i <= records@.len(),
            recs == records.deep_view(),
            recs.len() == records@.len(),
            forall|j: int| 0 <= j < i ==> (#[trigger] spec_parse_record(recs[j]) matches Some(p) ==> p is DropMarker),
        decreases records.len() - i,
    {
        assert(recs[i as int] == records@[i as int]@);
        match parse_record(records[i].deep_clone()) {
            Some(Packet::DropMarker(_, _)) | None => {},
            Some(_) => return false,
        }
        i = i + 1;
    }
    true
}

/// The records of a session file, and whether they can be replayed: the
/// bytes must be one CBOR array, and its packets markers only.
pub fn session_records(bytes: &[u8]) -> (r: Result<Vec<CborValue>, SessionError>)
    ensures
        match cbor_item(bytes@) {
            Some(ValueModel::Array(items)) => if only_markers(items) {
                r matches Ok(v) && v.deep_view() == items
            } else {
                r matches Err(SessionError::NotOnlyMarkers)
            },
            _ => r matches Err(SessionError::Unreadable),
        },
{
    let records = match decode_records(bytes) {
        Some(v) => v,
        None => return Err(SessionError::Unreadable),
    };
    proof {
        lemma_models_of_ext(records@, records.deep_view());
    }
    if all_markers(&records) {
        Ok(records)
    } else {
        Err(SessionError::NotOnlyMarkers)
    }
}

/// The packets of a recorded session, with the time of each named marker.
pub struct ReplayerState {
    pub packets: Vec<Packet>,
    pub marker_table: TextMap,
    pub last_packet: u64,
}

impl ReplayerState {
    /// The state for a session file, read from its bytes.
    pub fn from_session(bytes: &[u8]) -> (r: Result<Self, SessionError>)
        ensures
            match cbor_item(bytes@) {
                Some(ValueModel::Array(items)) => if only_markers(items) {
                    r matches Ok(st) && {
                        &&& st.packets.deep_view() == spec_parsed(items)
                        &&& st.marker_table@ == spec_markers(spec_parsed(items))
                        &&& st.last_packet == 0
                    }
                } else {
                    r matches Err(SessionError::NotOnlyMarkers)
                },
                _ => r matches Err(SessionError::Unreadable),
            },
    {
        match session_records(bytes) {
            Ok(records) => Ok(ReplayerState::new(records)),
            Err(e) => Err(e),
        }
    }

    /// The state for the records of a recording. The replayer takes markers
    /// only, so a recording must hold no other packet.
    pub fn new(records: Vec<CborValue>) -> (r: Self)
        requires
            only_markers(records.deep_view()),
        ensures
            r.packets.deep_view() == spec_parsed(records.deep_view()),
            r.marker_table@ == spec_markers(spec_parsed(records.deep_view())),
            r.last_packet == 0,
    {
        let ghost recs = records.deep_view();
        let mut packets: Vec<Packet> = Vec::new();
        let mut i: usize = 0;
        proof {
            assert(recs.take(0) =~= Seq::<ValueModel>::empty());
        }
        while i < records.len()
            invariant
                i <= records@.len(),
                recs == records.deep_view(),
                recs.len() == records@.len(),
                only_markers(recs),
                packets.deep_view() == spec_parsed(recs.take(i as int)),
                forall|j: int| 0 <= j < packets@.len() ==> packets@[j] is DropMarker,
            decreases records.len() - i,
        {
            let ghost before = packets.deep_view();
            assert(recs.take(i + 1).drop_last() =~= recs.take(i as int));
            assert(recs.take(i + 1).last() == records@[i as int]@);
            assert(recs[i as int] == records@[i as int]@);
            match parse_record(records[i].deep_clone()) {
                Some(p) => {
                    assert(spec_parse_record(recs[i as int]) matches Some(q) ==> q is DropMarker);
                    packets.push(p);
                    assert(packets.deep_view() =~= before.push(p.deep_view()));
                },
                None => {},
            }
            i = i + 1;
        }
        assert(recs.take(i as int) =~= recs);
        let ghost ps = packets.deep_view();
        let mut table = TextMap::new();
        let mut k: usize = 0;
        proof {
            assert(ps.take(0) =~= Seq::<PacketModel>::empty());
            assert(table@ =~= spec_markers(ps.take(0)));
        }
        while k < packets.len()
            invariant
                k <= packets@.len(),
                ps == packets.deep_view(),
                ps.len() == packets@.len(),
                table@ == spec_markers(ps.take(k as int)),
                forall|j: int| 0 <= j < packets@.len() ==> packets@[j] is DropMarker,
            decreases packets.len() - k,
        {
            assert(ps.take(k + 1).drop_last() =~= ps.take(k as int));
            assert(ps.take(k + 1).last() == packets@[k as int].deep_view());
            match &packets[k] {
                Packet::DropMarker(time, name) => {
                    table.insert(name.clone(), CborValue::Integer(time.0 as i128));
                },
                _ => {},
            }
            k = k + 1;
        }
        assert(ps.take(k as int) =~= ps);
        ReplayerState { packets, marker_table: table, last_packet: 0 }
    }
}

// =============================================================================

/// A replay in progress: the packets of a recording, the time of each
/// marker, and how far the replay has come.
pub struct ReplayerServerState {
    pub packets: Vec<Packet>,
    pub marker_table: TextMap,
    pub last_packet_index: u64,
    pub last_time: u64,
}

/// The position of the first server message packet at or after a position,
/// if any.
pub open spec fn next_message_at(packets: Seq<PacketModel>, from: int) -> Option<int>
    decreases packets.len() - from,
{
    if from < 0 || from >= packets.len() {
        None
    } else if packets[from] is WriteCBOR {
        Some(from)
    } else {
        next_message_at(packets, from + 1)
    }
}

/// The first server message at or after a position lies there or later.
pub proof fn lemma_next_message_at(packets: Seq<PacketModel>, from: int)
    ensures
        next_message_at(packets, from) matches Some(i) ==> from <= i < packets.len() && packets[i] is WriteCBOR,
    decreases packets.len() - from,
{
    if 0 <= from < packets.len() && !(packets[from] is WriteCBOR) {
        lemma_next_message_at(packets, from + 1);
    }
}

/// Replaying from a position until a message at or after a time: whether
/// such a message came, the bytes of every message passed in order, and
/// where the replay stops.
pub open spec fn spec_run_to(packets: Seq<PacketModel>, from: int, time: int) -> (bool, Seq<Seq<u8>>, int)
    decreases packets.len() - from,
{
    match next_message_at(packets, from) {
        None => (false, Seq::empty(), packets.len() as int),
        Some(i) => match packets[i] {
            PacketModel::WriteCBOR(t, data) => if t >= time {
                (true, seq![data], i + 1)
            } else {
                proof {
                    lemma_next_message_at(packets, from);
                }
                let rest = spec_run_to(packets, i + 1, time);
                (rest.0, seq![data] + rest.1, rest.2)
            },
            _ => (false, Seq::empty(), packets.len() as int),
        },
    }
}

/// The time of a marker, if the table holds it as a time.
pub open spec fn marker_time(table: Map<Seq<char>, ValueModel>, label: Seq<char>) -> Option<u32> {
    if table.contains_key(label) {
        match table[label] {
            ValueModel::Integer(i) => if 0 <= i <= u32::MAX { Some(i as u32) } else { None },
            _ => None,
        }
    } else {
        None
    }
}

impl ReplayerServerState {
    /// The state for a session file, read from its bytes, at its start.
    pub fn from_session(bytes: &[u8]) -> (r: Result<Self, SessionError>)
        ensures
            match cbor_item(bytes@) {
                Some(ValueModel::Array(items)) => if only_markers(items) {
                    r matches Ok(st) && {
                        &&& st.packets.deep_view() == spec_parsed(items)
                        &&& st.marker_table@ == spec_markers(spec_parsed(items))
                        &&& st.last_packet_index == 0
                        &&& st.last_time == 0
                    }
                } else {
                    r matches Err(SessionError::NotOnlyMarkers)
                },
                _ => r matches Err(SessionError::Unreadable),
            },
    {
        match session_records(bytes) {
            Ok(records) => Ok(ReplayerServerState::new(records)),
            Err(e) => Err(e),
        }
    }

    /// The state for the records of a recording, at its start. Only markers
    /// can be replayed, so a recording must hold no other packet.
    pub fn new(records: Vec<CborValue>) -> (r: Self)
        requires
            only_markers(records.deep_view()),
        ensures
            r.packets.deep_view() == spec_parsed(records.deep_view()),
            r.marker_table@ == spec_markers(spec_parsed(records.deep_view())),
            r.last_packet_index == 0,
            r.last_time == 0,
    {
        let base = ReplayerState::new(records);
        ReplayerServerState { packets: base.packets, marker_table: base.marker_table, last_packet_index: 0, last_time: 0 }
    }

    /// Move past the next server message: its time and its bytes, to hand to
    /// the client; markers and buffer locations on the way are passed over.
    pub fn advance(&mut self) -> (r: Option<(u32, Vec<u8>)>)
        requires
            old(self).last_packet_index <= old(self).packets@.len(),
        ensures
            final(self).packets == old(self).packets,
            final(self).marker_table == old(self).marker_table,
            final(self).last_time == old(self).last_time,
            final(self).last_packet_index <= final(self).packets@.len(),
            match next_message_at(old(self).packets.deep_view(), old(self).last_packet_index as int) {
                None => r is None && final(self).last_packet_index == old(self).packets@.len(),
                Some(i) => {
                    &&& final(self).last_packet_index == i + 1
                    &&& r matches Some((t, data)) && old(self).packets.deep_view()[i] == PacketModel::WriteCBOR(t, data@)
                },
            },
    {
        let ghost ps = self.packets.deep_view();
        let ghost start = self.last_packet_index as int;
        loop
            invariant
                ps == self.packets.deep_view(),
                ps.len() == self.packets@.len(),
                self.packets == old(self).packets,
                self.marker_table == old(self).marker_table,
                self.last_time == old(self).last_time,
                start == old(self).last_packet_index as int,
                start <= self.last_packet_index <= self.packets@.len(),
                next_message_at(ps, start) == next_message_at(ps, self.last_packet_index as int),
            decreases self.packets@.len() - self.last_packet_index,
        {
            if self.last_packet_index as usize >= self.packets.len() {
                assert(next_message_at(ps, self.last_packet_index as int) is None);
                return None;
            }
            let i = self.last_packet_index as usize;
            self.last_packet_index = self.last_packet_index + 1;
            assert(ps[i as int] == self.packets@[i as int].deep_view());
            match &self.packets[i] {
                Packet::WriteCBOR(st, data) => {
                    let data = data.clone();
                    assert(next_message_at(ps, i as int) == Some(i as int));
                    return Some((st.0, data));
                },
                _ => {
                    assert(next_message_at(ps, i as int) == next_message_at(ps, i + 1));
                },
            }
        }
    }
    /// Replay messages until one at or after a time: the bytes of every
    /// message passed, to hand to the client in order, and whether such a
    /// message came before the recording ended.
    pub fn advance_to_time(&mut self, global_seconds: u64) -> (r: (Option<()>, Vec<Vec<u8>>))
        requires
            old(self).last_packet_index <= old(self).packets@.len(),
        ensures
            final(self).packets == old(self).packets,
            final(self).marker_table == old(self).marker_table,
            final(self).last_time == old(self).last_time,
            final(self).last_packet_index <= final(self).packets@.len(),
            ({
                let run = spec_run_to(old(self).packets.deep_view(), old(self).last_packet_index as int, global_seconds as int);
                &&& (r.0 is Some) == run.0
                &&& r.1@.map_values(|d: Vec<u8>| d@) == run.1
                &&& final(self).last_packet_index == run.2
            }),
    {
        let ghost ps = self.packets.deep_view();
        let ghost start = self.last_packet_index as int;
        let mut out: Vec<Vec<u8>> = Vec::new();
        loop
            invariant
                ps == self.packets.deep_view(),
                ps.len() == self.packets@.len(),
                self.packets == old(self).packets,
                self.marker_table == old(self).marker_table,
                self.last_time == old(self).last_time,
                start == old(self).last_packet_index as int,
                self.last_packet_index <= self.packets@.len(),
                ({
                    let whole = spec_run_to(ps, start, global_seconds as int);
                    let here = spec_run_to(ps, self.last_packet_index as int, global_seconds as int);
                    &&& whole.0 == here.0
                    &&& whole.1 == out@.map_values(|d: Vec<u8>| d@) + here.1
                    &&& whole.2 == here.2
                }),
            decreases self.packets@.len() - self.last_packet_index,
        {
            let ghost at = self.last_packet_index as int;
            proof {
                lemma_next_message_at(ps, at);
            }
            let ghost before = out@.map_values(|d: Vec<u8>| d@);
            match self.advance() {
                None => {
                    assert(out@.map_values(|d: Vec<u8>| d@) + Seq::<Seq<u8>>::empty() =~= out@.map_values(|d: Vec<u8>| d@));
                    return (None, out);
                },
                Some((t, data)) => {
                    let ghost d = data@;
                    out.push(data);
                    assert(out@.map_values(|d: Vec<u8>| d@) =~= before.push(d));
                    if t as u64 >= global_seconds {
                        assert(before + seq![d] =~= before.push(d));
                        return (Some(()), out);
                    }
                    let ghost rest = spec_run_to(ps, self.last_packet_index as int, global_seconds as int);
                    assert(before + (seq![d] + rest.1) =~= before.push(d) + rest.1);
                },
            }
        }
    }

    /// Replay a number of seconds past the replay's time.
    pub fn advance_by_time(&mut self, relative_seconds: u64) -> (r: (Option<()>, Vec<Vec<u8>>))
        requires
            old(self).last_packet_index <= old(self).packets@.len(),
            old(self).last_time + relative_seconds <= u64::MAX,
        ensures
            final(self).packets == old(self).packets,
            final(self).marker_table == old(self).marker_table,
            final(self).last_time == old(self).last_time,
            ({
                let run = spec_run_to(old(self).packets.deep_view(), old(self).last_packet_index as int, old(self).last_time + relative_seconds);
                &&& (r.0 is Some) == run.0
                &&& r.1@.map_values(|d: Vec<u8>| d@) == run.1
                &&& final(self).last_packet_index == run.2
            }),
    {
        let target_ts = self.last_time + relative_seconds;
        self.advance_to_time(target_ts)
    }

    /// Replay up to a marker; nothing happens when the marker is unknown or
    /// not after the replay's time.
    pub fn advance_by_marker(&mut self, label: String) -> (r: (Option<()>, Vec<Vec<u8>>))
        requires
            old(self).last_packet_index <= old(self).packets@.len(),
        ensures
            final(self).packets == old(self).packets,
            final(self).marker_table == old(self).marker_table,
            final(self).last_time == old(self).last_time,
            match marker_time(old(self).marker_table@, label@) {
                Some(t) if t > old(self).last_time => {
                    let run = spec_run_to(old(self).packets.deep_view(), old(self).last_packet_index as int, t as int);
                    &&& (r.0 is Some) == run.0
                    &&& r.1@.map_values(|d: Vec<u8>| d@) == run.1
                    &&& final(self).last_packet_index == run.2
                },
                _ => r.0 is None && r.1@.len() == 0 && final(self).last_packet_index == old(self).last_packet_index,
            },
    {
        let target_time: u64 = match self.marker_table.get(label.as_str()) {
            Some(CborValue::Integer(i)) => {
                if 0 <= *i && *i <= 0xffff_ffffi128 {
                    *i as u64
                } else {
                    return (None, Vec::new());
                }
            },
            _ => return (None, Vec::new()),
        };
        if target_time <= self.last_time {
            return (None, Vec::new());
        }
        self.advance_to_time(target_time)
    }
}

} // verus!
