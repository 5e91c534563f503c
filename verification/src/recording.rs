//!
//! Reads and writes NOODLES messages to disk
//!
//! # Disk Format
//!
//! All in CBOR. Note that the file is an array
//! of CBOR lists. The array could be definite or indefinite in length.
//!
//! // File
//! [
//!     packet,
//!     ...
//! ]
//!
//! // packet
//! [
//!     packet_type : integer,
//!     content1 : any,
//!     content2 : any,
//!     ...
//! ]
//!
//! # Packet Types
//!
//! Type 1:
//! CBOR from-server message content
//!     timestamp : integer, seconds from start,
//!     message : bytes, message from the server,
//!
//! Type 2:
//! Labelled timestamp w/ utf8 string identifier
//!     timestamp : integer, seconds from start,
//!     marker_name : string
//!
//! Type 3:
//! Buffer location
//!     content : string, relative location of buffer file
//!
use vstd::prelude::*;
use crate::value::{CborValue, ValueModel, models_of, lemma_models_of};

verus! {

/// Seconds from the start of a recording.
#[derive(Debug, Clone, Copy)]
pub struct PacketStamp(pub u32);

/// One packet of a recording.
#[derive(Debug)]
pub enum Packet {
    DropMarker(PacketStamp, String),
    WriteCBOR(PacketStamp, Vec<u8>),
    BufferLocation(String),
}

/// The model of a [`Packet`].
pub enum PacketModel {
    DropMarker(u32, Seq<char>),
    WriteCBOR(u32, Seq<u8>),
    BufferLocation(Seq<char>),
}

impl DeepView for Packet {
    type V = PacketModel;

    open spec fn deep_view(&self) -> PacketModel {
        match self {
            Packet::DropMarker(t, s) => PacketModel::DropMarker(t.0, s@),
            Packet::WriteCBOR(t, b) => PacketModel::WriteCBOR(t.0, b@),
            Packet::BufferLocation(s) => PacketModel::BufferLocation(s@),
        }
    }
}

/// The packet type number of a packet.
pub open spec fn spec_message_stamp(p: PacketModel) -> u8 {
    match p {
        PacketModel::WriteCBOR(..) => 1,
        PacketModel::DropMarker(..) => 2,
        PacketModel::BufferLocation(..) => 3,
    }
}

impl Packet {
    /// The packet type number of this packet.
    pub fn message_stamp(&self) -> (r: u8)
        ensures
            r == spec_message_stamp(self.deep_view()),
    {
        match &self {
            Packet::WriteCBOR(_, _) => 1,
            Packet::DropMarker(_, _) => 2,
            Packet::BufferLocation(_) => 3,
        }
    }
}

/// A CBOR integer that fits a `u32`.
pub open spec fn as_u32(v: ValueModel) -> Option<u32> {
    match v {
        ValueModel::Integer(i) => if 0 <= i <= u32::MAX {
            Some(i as u32)
        } else {
            None
        },
        _ => None,
    }
}

/// What reading a packet from its CBOR list gives.
pub open spec fn spec_parse_record(v: ValueModel) -> Option<PacketModel> {
    match v {
        ValueModel::Array(a) => if a.len() == 0 {
            None
        } else {
            match a[0] {
                ValueModel::Integer(id) => if id == 1 {
                    if a.len() < 3 {
                        None
                    } else {
                        match (as_u32(a[1]), a[2]) {
                            (Some(t), ValueModel::Bytes(b)) => Some(PacketModel::WriteCBOR(t, b)),
                            _ => None,
                        }
                    }
                } else if id == 2 {
                    if a.len() < 3 {
                        None
                    } else {
                        match (as_u32(a[1]), a[2]) {
                            (Some(t), ValueModel::Text(s)) => Some(PacketModel::DropMarker(t, s)),
                            _ => None,
                        }
                    }
                } else if id == 3 {
                    if a.len() < 2 {
                        None
                    } else {
                        match a[1] {
                            ValueModel::Text(s) => Some(PacketModel::BufferLocation(s)),
                            _ => None,
                        }
                    }
                } else {
                    None
                },
                _ => None,
            }
        },
        _ => None,
    }
}

/// The CBOR list that stands for a packet.
pub open spec fn spec_pack_record(p: PacketModel) -> Seq<ValueModel> {
    match p {
        PacketModel::WriteCBOR(t, b) => seq![
            ValueModel::Integer(1),
            ValueModel::Integer(t as int),
            ValueModel::Bytes(b),
        ],
        PacketModel::DropMarker(t, s) => seq![
            ValueModel::Integer(2),
            ValueModel::Integer(t as int),
            ValueModel::Text(s),
        ],
        PacketModel::BufferLocation(s) => seq![ValueModel::Integer(3), ValueModel::Text(s)],
    }
}

fn read_u32(v: &CborValue) -> (r: Option<u32>)
    ensures
        r == as_u32(v@),
{
    match v {
        CborValue::Integer(i) => if 0 <= *i && *i <= 0xffff_ffffi128 {
            Some(*i as u32)
        } else {
            None
        },
        _ => None,
    }
}

/// Read a packet from its CBOR list.
pub fn parse_record(value: CborValue) -> (r: Option<Packet>)
    ensures
        match r {
            Some(p) => spec_parse_record(value@) == Some(p.deep_view()),
            None => spec_parse_record(value@) is None,
        },
{
    let array = match &value {
        CborValue::Array(a) => a,
        _ => return None,
    };
    proof {
        lemma_models_of(array@);
    }
    if array.len() == 0 {
        return None;
    }
    let id = match &array[0] {
        CborValue::Integer(i) => *i,
        _ => return None,
    };
    if id == 1 {
        if array.len() < 3 {
            return None;
        }
        let timestamp = match read_u32(&array[1]) {
            Some(t) => t,
            None => return None,
        };
        match &array[2] {
            CborValue::Bytes(b) => Some(Packet::WriteCBOR(PacketStamp(timestamp), b.clone())),
            _ => None,
        }
    } else if id == 2 {
        if array.len() < 3 {
            return None;
        }
        let timestamp = match read_u32(&array[1]) {
            Some(t) => t,
            None => return None,
        };
        match &array[2] {
            CborValue::Text(s) => Some(Packet::DropMarker(PacketStamp(timestamp), s.clone())),
            _ => None,
        }
    } else if id == 3 {
        if array.len() < 2 {
            return None;
        }
        match &array[1] {
            CborValue::Text(s) => Some(Packet::BufferLocation(s.clone())),
            _ => None,
        }
    } else {
        None
    }
}

/// Starts a record array using an indefinite array byte. Be sure to call [end_pack] when done.
pub fn start_pack(sink: &mut Vec<u8>)
    ensures
        final(sink)@ == old(sink)@.push(0x9f),
{
    sink.push(0x9f);
}

/// Ends a record array using an indefinite array stop byte. Be sure to have called [start_pack] beforehand at some point.
pub fn end_pack(sink: &mut Vec<u8>)
    ensures
        final(sink)@ == old(sink)@.push(0xff),
{
    sink.push(0xff);
}

/// The CBOR list of a record, ready to be added to the pack.
pub fn pack_record(record: Packet) -> (r: Vec<CborValue>)
    ensures
        models_of(r@) == spec_pack_record(record.deep_view()),
{
    let id = record.message_stamp();
    let mut out: Vec<CborValue> = Vec::new();
    out.push(CborValue::Integer(id as i128));
    match record {
        Packet::DropMarker(t, v) => {
            out.push(CborValue::Integer(t.0 as i128));
            out.push(CborValue::Text(v));
        },
        Packet::WriteCBOR(t, v) => {
            out.push(CborValue::Integer(t.0 as i128));
            out.push(CborValue::Bytes(v));
        },
        Packet::BufferLocation(loc) => {
            out.push(CborValue::Text(loc));
        },
    }
    proof {
        lemma_models_of(out@);
        assert(models_of(out@) =~= spec_pack_record(record.deep_view()));
    }
    out
}

/// Reading back the list written for a packet gives the packet.
pub proof fn lemma_record_round_trip(p: PacketModel)
    ensures
        spec_parse_record(ValueModel::Array(spec_pack_record(p))) == Some(p),
        spec_pack_record(p)[0] == ValueModel::Integer(spec_message_stamp(p) as int),
{
}

} // verus!
