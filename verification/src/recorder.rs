//!
//! Writes NOODLES message to disk
//!
//! # Format
//!
//! All in LE.
//!
//! // header
//! 3x u8: 'noo'
//! 1x u8: version (1)
//! 1x u64: unix timestamp
//!
//! // packet
//! 1x u8:  packet type
//! 1x u24: seconds from start
//! 1x u32: size
//! size x u8 : content
//!
//! Type 1:
//! CBOR server message content
//!
//! Type 2:
//! Timestamp w/ utf8 string identifier
//!
//! Type 255:
//! EOF (not required)
//!
use vstd::prelude::*;

verus! {

/// Something to write to a recording.
#[derive(Debug)]
pub enum Message {
    DropMarker(String),
    WriteCBOR(Vec<u8>),
    Stop,
}

/// The packet type of a message.
pub open spec fn spec_message_stamp(m: &Message) -> u8 {
    match m {
        Message::WriteCBOR(_) => 1,
        Message::DropMarker(_) => 2,
        Message::Stop => u8::MAX,
    }
}

/// The packet type of a message.
pub fn message_stamp(m: &Message) -> (r: u8)
    ensures
        r == spec_message_stamp(m),
{
    match m {
        Message::WriteCBOR(_) => 1,
        Message::DropMarker(_) => 2,
        Message::Stop => u8::MAX,
    }
}

/// The `n` low bytes of `x`, least significant first.
pub open spec fn le_bytes(x: nat, n: nat) -> Seq<u8>
    decreases n,
{
    if n == 0 {
        Seq::empty()
    } else {
        seq![(x % 256) as u8] + le_bytes(x / 256, (n - 1) as nat)
    }
}

/// The number that bytes stand for, least significant first.
pub open spec fn le_value(b: Seq<u8>) -> nat
    decreases b.len(),
{
    if b.len() == 0 {
        0
    } else {
        (b[0] as nat) + 256 * le_value(b.subrange(1, b.len() as int))
    }
}

/// Reading back the bytes written for a number gives the number, when it fits.
pub proof fn lemma_le_round_trip(x: nat, n: nat)
    ensures
        le_bytes(x, n).len() == n,
        le_value(le_bytes(x, n)) == (x as int) % vstd::arithmetic::power::pow(256, n),
    decreases n,
{
    vstd::arithmetic::power::lemma_pow_positive(256, n);
    if n > 0 {
        lemma_le_round_trip(x / 256, (n - 1) as nat);
        let b = le_bytes(x, n);
        assert(b.subrange(1, b.len() as int) =~= le_bytes(x / 256, (n - 1) as nat));
        let p = vstd::arithmetic::power::pow(256, (n - 1) as nat);
        vstd::arithmetic::power::lemma_pow_positive(256, (n - 1) as nat);
        assert(vstd::arithmetic::power::pow(256, n) == 256 * p) by {
            vstd::arithmetic::power::lemma_pow_adds(256, 1, (n - 1) as nat);
            vstd::arithmetic::power::lemma_pow1(256);
        }
        vstd::arithmetic::div_mod::lemma_breakdown(x as int, 256, p);
    } else {
        vstd::arithmetic::power::lemma_pow0(256);
    }
}

/// Take a 32 bit value and give its low 24 bits, least significant byte first.
pub fn trim_u32(value: u32) -> (r: [u8; 3])
    ensures
        r@ == le_bytes(value as nat, 3),
{
    let b0 = (value % 256) as u8;
    let b1 = ((value / 256) % 256) as u8;
    let b2 = ((value / 65536) % 256) as u8;
    proof {
        assert(value / 256 / 256 == value / 65536);
        assert(le_bytes(value as nat, 3) =~= seq![b0, b1, b2]) by {
            reveal_with_fuel(le_bytes, 4);
        }
    }
    [b0, b1, b2]
}

/// The seconds elapsed since `base_time`, as a 24 bit value.
pub fn get_time_delta(base_time: u64, now: u64) -> (r: [u8; 3])
    requires
        base_time <= now,
        now - base_time < 0x100_0000,
    ensures
        r@ == le_bytes((now - base_time) as nat, 3),
{
    let delta = now - base_time;
    trim_u32(delta as u32)
}

/// The header of a recording made at `timestamp`.
pub fn header_bytes(timestamp: u64) -> (r: Vec<u8>)
    ensures
        r@ == seq![0x6eu8, 0x6fu8, 0x6fu8, 1u8] + le_bytes(timestamp as nat, 8),
{
    let mut out: Vec<u8> = Vec::new();
    out.push(0x6e);
    out.push(0x6f);
    out.push(0x6f);
    out.push(1);
    push_le(&mut out, timestamp, 8);
    out
}

fn push_le(out: &mut Vec<u8>, x: u64, n: u8)
    requires
        n <= 8,
    ensures
        final(out)@ == old(out)@ + le_bytes(x as nat, n as nat),
{
    let mut v = x;
    let mut i: u8 = 0;
    assert(old(out)@ + le_bytes(x as nat, 0) =~= old(out)@);
    while i < n
        invariant
            i <= n,
            n <= 8,
            old(out)@ + le_bytes(x as nat, n as nat) == out@ + le_bytes(v as nat, (n - i) as nat),
        decreases n - i,
    {
        let ghost before = out@;
        out.push((v % 256) as u8);
        proof {
            assert(le_bytes(v as nat, (n - i) as nat) =~= seq![(v % 256) as u8] + le_bytes((v / 256) as nat, (n - i - 1) as nat));
            assert(before + le_bytes(v as nat, (n - i) as nat) =~= out@ + le_bytes((v / 256) as nat, (n - i - 1) as nat));
        }
        v = v / 256;
        i = i + 1;
    }
    assert(out@ + le_bytes(v as nat, 0) =~= out@);
}

/// The content a message carries.
pub open spec fn message_content(m: &Message) -> Seq<u8> {
    match m {
        Message::DropMarker(s) => vstd::utf8::encode_utf8(s@),
        Message::WriteCBOR(b) => b@,
        Message::Stop => Seq::empty(),
    }
}

/// The bytes of a packet: its type, the time since the start, the size of
/// its content, and the content.
pub fn packet_bytes(message: &Message, delta: [u8; 3]) -> (r: Vec<u8>)
    requires
        match message {
            Message::DropMarker(s) => vstd::utf8::encode_utf8(s@).len() <= u32::MAX,
            Message::WriteCBOR(b) => b@.len() <= u32::MAX,
            Message::Stop => true,
        },
    ensures
        r@ == seq![spec_message_stamp(message)] + delta@ + le_bytes(message_content(message).len(), 4)
            + message_content(message),
{
    let mut out: Vec<u8> = Vec::new();
    out.push(message_stamp(message));
    out.push(delta[0]);
    out.push(delta[1]);
    out.push(delta[2]);
    let ghost head = out@;
    assert(head =~= seq![spec_message_stamp(message)] + delta@);
    match message {
        Message::DropMarker(x) => {
            let bytes = x.as_str().as_bytes();
            push_le(&mut out, bytes.len() as u64, 4);
            let ghost mid = out@;
            let mut i: usize = 0;
            while i < bytes.len()
                invariant
                    i <= bytes@.len(),
                    out@ == mid + bytes@.subrange(0, i as int),
                decreases bytes.len() - i,
            {
                out.push(bytes[i]);
                assert(out@ =~= mid + bytes@.subrange(0, i + 1));
                i = i + 1;
            }
            assert(bytes@.subrange(0, bytes@.len() as int) =~= bytes@);
        },
        Message::WriteCBOR(x) => {
            push_le(&mut out, x.len() as u64, 4);
            let ghost mid = out@;
            let mut i: usize = 0;
            while i < x.len()
                invariant
                    i <= x@.len(),
                    out@ == mid + x@.subrange(0, i as int),
                decreases x.len() - i,
            {
                out.push(x[i]);
                assert(out@ =~= mid + x@.subrange(0, i + 1));
                i = i + 1;
            }
            assert(x@.subrange(0, x@.len() as int) =~= x@);
        },
        Message::Stop => {
            push_le(&mut out, 0, 4);
            assert(message_content(message) =~= Seq::<u8>::empty());
        },
    }
    out
}

} // verus!
