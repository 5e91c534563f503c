//! A client that hands each message of a pack to its own handler, as a CBOR map.
use vstd::prelude::*;
use crate::common::ServerMessages;
use crate::cbor::{cbor_item, decode_cbor};
use crate::value::{CborValue, ValueModel, pair_models_of, lemma_pair_models_of, models_of, lemma_models_of};

verus! {

/// Why a pack of messages was refused.
#[derive(Debug)]
pub enum ClientError {
    DecodeError(String),
    InvalidRootMessage(String),
}

/// The model of a [`ClientError`].
pub enum ClientErrorModel {
    DecodeError(Seq<char>),
    InvalidRootMessage(Seq<char>),
}

impl View for ClientError {
    type V = ClientErrorModel;

    open spec fn view(&self) -> ClientErrorModel {
        match self {
            ClientError::DecodeError(s) => ClientErrorModel::DecodeError(s@),
            ClientError::InvalidRootMessage(s) => ClientErrorModel::InvalidRootMessage(s@),
        }
    }
}

/// An error a message handler reports.
#[derive(Debug)]
pub enum UserError {
    InternalError,
}

/// A client that handles each message as a CBOR map.
pub trait MappedNoodlesClient: Sized {
    /// `next` is this client after it handled a message with this content.
    /// A client that describes nothing allows any change.
    open spec fn handled_message(self, next: Self, message: ServerMessages, content: Seq<(ValueModel, ValueModel)>) -> bool {
        true
    }

    /// `next` is this client after it refused a message with this content.
    /// A client that describes nothing allows any change.
    open spec fn refused_message(self, next: Self, message: ServerMessages, content: Seq<(ValueModel, ValueModel)>) -> bool {
        true
    }

    fn handle_message(&mut self, message: ServerMessages, content: &Vec<(CborValue, CborValue)>) -> (r: Result<(), UserError>)
        ensures
            r is Ok ==> old(self).handled_message(*final(self), message, pair_models_of(content@)),
            r is Err ==> old(self).refused_message(*final(self), message, pair_models_of(content@)),
    ;
}

/// The decimal digit for a number below ten.
pub open spec fn digit_char(d: nat) -> char {
    if d == 0 { '0' } else if d == 1 { '1' } else if d == 2 { '2' } else if d == 3 { '3' } else if d == 4 { '4' }
    else if d == 5 { '5' } else if d == 6 { '6' } else if d == 7 { '7' } else if d == 8 { '8' } else { '9' }
}

/// The decimal writing of a number.
pub open spec fn decimal(n: nat) -> Seq<char>
    decreases n,
{
    if n < 10 {
        seq![digit_char(n)]
    } else {
        decimal(n / 10).push(digit_char(n % 10))
    }
}

fn digit_str(d: u32) -> (r: &'static str)
    requires
        d < 10,
    ensures
        r@ == seq![digit_char(d as nat)],
{
    proof {
        reveal_strlit("0");
        reveal_strlit("1");
        reveal_strlit("2");
        reveal_strlit("3");
        reveal_strlit("4");
        reveal_strlit("5");
        reveal_strlit("6");
        reveal_strlit("7");
        reveal_strlit("8");
        reveal_strlit("9");
    }
    if d == 0 { "0" } else if d == 1 { "1" } else if d == 2 { "2" } else if d == 3 { "3" } else if d == 4 { "4" }
    else if d == 5 { "5" } else if d == 6 { "6" } else if d == 7 { "7" } else if d == 8 { "8" } else { "9" }
}

/// Append the decimal writing of a number.
pub(crate) fn push_decimal(out: &mut String, n: u32)
    ensures
        final(out)@ == old(out)@ + decimal(n as nat),
    decreases n,
{
    if n < 10 {
        out.append(digit_str(n));
    } else {
        push_decimal(out, n / 10);
        out.append(digit_str(n % 10));
        assert(old(out)@ + decimal((n / 10) as nat) + seq![digit_char((n % 10) as nat)] =~= old(out)@ + decimal(n as nat));
    }
}

/// The message for a number that names no message.
pub open spec fn unknown_id_message(n: u32) -> Seq<char> {
    "Message id was decoded as "@ + decimal(n as nat) + ", but this does not correspond with a known message type."@
}

/// The message for a number whose content is not a map.
pub open spec fn missing_content_message(n: u32) -> Seq<char> {
    "Message id was decoded as "@ + decimal(n as nat) + ", but the message content is missing."@
}

/// What checking a pack gives before any message is handled.
pub enum RootCheck {
    /// The messages, with their contents as maps.
    Valid(Seq<(ServerMessages, Seq<(ValueModel, ValueModel)>)>),
    /// The pack is refused with this message.
    Invalid(Seq<char>),
    /// A message number does not fit 32 bits.
    IdOverflow,
}

/// Checking the pairs of a pack from position `i` on.
pub open spec fn check_pairs(s: Seq<ValueModel>, i: int) -> RootCheck
    decreases s.len() - i,
{
    if i < 0 || i + 1 >= s.len() {
        RootCheck::Valid(Seq::empty())
    } else {
        match s[i] {
            ValueModel::Integer(v) => if !(0 <= v <= u32::MAX) {
                RootCheck::IdOverflow
            } else {
                match ServerMessages::spec_from_u32(v as u32) {
                    None => RootCheck::Invalid(unknown_id_message(v as u32)),
                    Some(m) => match s[i + 1] {
                        ValueModel::Dict(pairs) => match check_pairs(s, i + 2) {
                            RootCheck::Valid(rest) => RootCheck::Valid(seq![(m, pairs)] + rest),
                            other => other,
                        },
                        _ => RootCheck::Invalid(missing_content_message(v as u32)),
                    },
                }
            },
            _ => RootCheck::Invalid("Missing message id value"@),
        }
    }
}

/// Checking a pack: it must be an array of an even length, whose pairs are a
/// message number and a map.
pub open spec fn check_root(v: ValueModel) -> RootCheck {
    match v {
        ValueModel::Array(s) => if s.len() % 2 != 0 {
            RootCheck::Invalid("Root array is not a multiple of 2"@)
        } else {
            check_pairs(s, 0)
        },
        _ => RootCheck::Invalid("Root is not an array"@),
    }
}

/// The pairs of a pack from position `i` on that pass the checks, up to the
/// first that does not.
pub open spec fn checked_pairs(s: Seq<ValueModel>, i: int) -> Seq<(ServerMessages, Seq<(ValueModel, ValueModel)>)>
    decreases s.len() - i,
{
    if i < 0 || i + 1 >= s.len() {
        Seq::empty()
    } else {
        match s[i] {
            ValueModel::Integer(v) => if 0 <= v <= u32::MAX {
                match ServerMessages::spec_from_u32(v as u32) {
                    Some(m) => match s[i + 1] {
                        ValueModel::Dict(pairs) => seq![(m, pairs)] + checked_pairs(s, i + 2),
                        _ => Seq::empty(),
                    },
                    None => Seq::empty(),
                }
            } else {
                Seq::empty()
            },
            _ => Seq::empty(),
        }
    }
}

/// The messages of a pack that are handed to the handler in turn: those
/// of its pairs that pass the checks, up to the first that does not.
pub open spec fn handed_pairs(v: ValueModel) -> Seq<(ServerMessages, Seq<(ValueModel, ValueModel)>)> {
    match v {
        ValueModel::Array(s) => if s.len() % 2 != 0 {
            Seq::empty()
        } else {
            checked_pairs(s, 0)
        },
        _ => Seq::empty(),
    }
}

/// The states a client passes through as it handles messages in order.
pub open spec fn handled_in_turn<U: MappedNoodlesClient>(
    msgs: Seq<(ServerMessages, Seq<(ValueModel, ValueModel)>)>,
    states: Seq<U>,
) -> bool {
    &&& states.len() == msgs.len() + 1
    &&& forall|j: int|
        #![trigger msgs[j]]
        0 <= j < msgs.len() ==> states[j].handled_message(states[j + 1], msgs[j].0, msgs[j].1)
}

/// A pack that passes the checks hands every one of its messages.
proof fn lemma_valid_pairs_checked(s: Seq<ValueModel>, i: int)
    requires
        check_pairs(s, i) is Valid,
    ensures
        check_pairs(s, i) == RootCheck::Valid(checked_pairs(s, i)),
    decreases s.len() - i,
{
    if !(i < 0 || i + 1 >= s.len()) {
        lemma_valid_pairs_checked(s, i + 2);
    }
}

/// Whether every message number the checks reach fits 32 bits.
pub fn root_ids_fit(root: &CborValue) -> (r: bool)
    ensures
        r == !(check_root(root@) is IdOverflow),
{
    let array = match root {
        CborValue::Array(a) => a,
        _ => return true,
    };
    proof {
        lemma_models_of(array@);
    }
    let ghost s = models_of(array@);
    if array.len() % 2 != 0 {
        return true;
    }
    let mut i: usize = 0;
    while i + 1 < array.len()
        invariant
            s == models_of(array@),
            s.len() == array@.len(),
            s.len() % 2 == 0,
            root@ == ValueModel::Array(s),
            forall|j: int| 0 <= j < array@.len() ==> #[trigger] s[j] == array@[j]@,
            i % 2 == 0,
            i <= array.len(),
            (check_pairs(s, 0) is IdOverflow) == (check_pairs(s, i as int) is IdOverflow),
        decreases array.len() - i,
    {
        assert(s[i as int] == array@[i as int]@);
        assert(s[i + 1] == array@[i + 1]@);
        match &array[i] {
            CborValue::Integer(v) => {
                if !(0 <= *v && *v <= 0xffff_ffffi128) {
                    return false;
                }
                match ServerMessages::from_u32(*v as u32) {
                    None => return true,
                    Some(_) => match &array[i + 1] {
                        CborValue::Dict(_) => {},
                        _ => return true,
                    },
                }
            },
            _ => return true,
        }
        i = i + 2;
    }
    true
}

/// What handling a pack does: the checks refuse it with their message, or
/// the handler is handed, in turn, each message that passes them, up to one
/// it refuses, which stops the pack.
pub open spec fn pack_handled<U: MappedNoodlesClient>(root: ValueModel, old: U, new: U, r: Result<(), ClientError>) -> bool {
    &&& !(root is Array) ==> (r matches Err(e) && e@ == ClientErrorModel::InvalidRootMessage("Root is not an array"@))
    &&& (root matches ValueModel::Array(s) && s.len() % 2 != 0) ==> (r matches Err(e) && e@ == ClientErrorModel::InvalidRootMessage("Root array is not a multiple of 2"@))
    &&& check_root(root) is Valid ==> (r is Ok || r matches Err(ClientError::DecodeError(_)))
    &&& check_root(root) matches RootCheck::Invalid(m) ==> (r matches Err(e) && (e@ == ClientErrorModel::InvalidRootMessage(m) || e@ is DecodeError))
    &&& match r {
        Ok(_) => {
            &&& check_root(root) is Valid
            &&& exists|states: Seq<U>|
                #![trigger handled_in_turn(handed_pairs(root), states)]
                handled_in_turn(handed_pairs(root), states) && states[0] == old && states.last() == new
        },
        Err(e) => match e@ {
            ClientErrorModel::InvalidRootMessage(m) => {
                &&& check_root(root) == RootCheck::Invalid(m)
                &&& exists|states: Seq<U>|
                    #![trigger handled_in_turn(handed_pairs(root), states)]
                    handled_in_turn(handed_pairs(root), states) && states[0] == old && states.last() == new
            },
            ClientErrorModel::DecodeError(m) => {
                &&& m == "Message handler failed"@
                &&& exists|k: int, states: Seq<U>|
                    #![trigger handled_in_turn(handed_pairs(root).take(k), states)]
                    0 <= k < handed_pairs(root).len() && handled_in_turn(handed_pairs(root).take(k), states)
                        && states[0] == old && states.last().refused_message(new, handed_pairs(root)[k].0, handed_pairs(root)[k].1)
            },
        },
    }
}

/// Handle a CBOR message from a server, sanitize, and then pass it along to
/// some state. Each message is handed to the state as soon as its pair is
/// checked; a failing handler stops the pack.
pub fn handle_next<U: MappedNoodlesClient>(root: &CborValue, state: &mut U) -> (r: Result<(), ClientError>)
    requires
        !(check_root(root@) is IdOverflow),
    ensures
        pack_handled(root@, *old(state), *final(state), r),
{
    let ghost s0 = *state;
    proof {
        let st: Seq<U> = seq![s0];
        assert(handled_in_turn(Seq::<(ServerMessages, Seq<(ValueModel, ValueModel)>)>::empty(), st));
    }
    let array = match root {
        CborValue::Array(a) => a,
        _ => {
            proof {
                assert(handed_pairs(root@) =~= Seq::empty());
                let st: Seq<U> = seq![s0];
                assert(handled_in_turn(handed_pairs(root@), st));
            }
            return Err(ClientError::InvalidRootMessage(String::from_str("Root is not an array")));
        },
    };
    proof {
        lemma_models_of(array@);
    }
    let ghost s = models_of(array@);
    if array.len() % 2 != 0 {
        proof {
            assert(handed_pairs(root@) =~= Seq::empty());
            let st: Seq<U> = seq![s0];
            assert(handled_in_turn(handed_pairs(root@), st));
        }
        return Err(ClientError::InvalidRootMessage(String::from_str("Root array is not a multiple of 2")));
    }
    let ghost all = checked_pairs(s, 0);
    let ghost mut done: Seq<(ServerMessages, Seq<(ValueModel, ValueModel)>)> = Seq::empty();
    let ghost mut states: Seq<U> = seq![s0];
    proof {
        assert(all =~= done + checked_pairs(s, 0));
        if check_pairs(s, 0) is Valid {
            lemma_valid_pairs_checked(s, 0);
        }
    }
    let mut i: usize = 0;
    while i + 1 < array.len()
        invariant
            s == models_of(array@),
            s.len() == array@.len(),
            s.len() % 2 == 0,
            root@ == ValueModel::Array(s),
            forall|j: int| 0 <= j < array@.len() ==> #[trigger] s[j] == array@[j]@,
            i % 2 == 0,
            i <= array.len(),
            !(check_pairs(s, i as int) is IdOverflow),
            check_pairs(s, 0) is Valid ==> check_pairs(s, i as int) is Valid,
            check_pairs(s, 0) matches RootCheck::Invalid(m) ==> check_pairs(s, i as int) == RootCheck::Invalid(m),
            !(check_pairs(s, i as int) is Valid) ==> check_pairs(s, 0) == check_pairs(s, i as int),
            all == checked_pairs(s, 0),
            all == handed_pairs(root@),
            all == done + checked_pairs(s, i as int),
            handled_in_turn(done, states),
            states[0] == s0,
            states.last() == *state,
            s0 == *old(state),
        decreases array.len() - i,
    {
        assert(s[i as int] == array@[i as int]@);
        assert(s[i + 1] == array@[i + 1]@);
        let mid = match &array[i] {
            CborValue::Integer(v) => *v,
            _ => {
                proof {
                    assert(checked_pairs(s, i as int) =~= Seq::empty());
                    assert(all =~= done);
                    assert(handled_in_turn(handed_pairs(root@), states));
                }
                return Err(ClientError::InvalidRootMessage(String::from_str("Missing message id value")));
            },
        };
        let mid = mid as u32;
        let msg = match ServerMessages::from_u32(mid) {
            Some(m) => m,
            None => {
                let mut text = String::from_str("Message id was decoded as ");
                push_decimal(&mut text, mid);
                text.append(", but this does not correspond with a known message type.");
                proof {
                    assert(checked_pairs(s, i as int) =~= Seq::empty());
                    assert(all =~= done);
                    assert(handled_in_turn(handed_pairs(root@), states));
                }
                return Err(ClientError::InvalidRootMessage(text));
            },
        };
        let content = match &array[i + 1] {
            CborValue::Dict(c) => c,
            _ => {
                let mut text = String::from_str("Message id was decoded as ");
                push_decimal(&mut text, mid);
                text.append(", but the message content is missing.");
                proof {
                    assert(checked_pairs(s, i as int) =~= Seq::empty());
                    assert(all =~= done);
                    assert(handled_in_turn(handed_pairs(root@), states));
                }
                return Err(ClientError::InvalidRootMessage(text));
            },
        };
        let ghost item = (msg, pair_models_of(content@));
        proof {
            assert(checked_pairs(s, i as int) == seq![item] + checked_pairs(s, i + 2));
            assert(!(check_pairs(s, i + 2) is Valid) ==> check_pairs(s, i as int) == check_pairs(s, i + 2));
            assert(all[done.len() as int] == item);
        }
        let ghost prev = *state;
        match state.handle_message(msg, content) {
            Ok(()) => {},
            Err(_) => {
                proof {
                    assert(all.take(done.len() as int) =~= done);
                    assert(handled_in_turn(handed_pairs(root@).take(done.len() as int), states));
                }
                return Err(ClientError::DecodeError(String::from_str("Message handler failed")));
            },
        }
        proof {
            let old_done = done;
            let old_states = states;
            done = done.push(item);
            states = states.push(*state);
            assert(all =~= done + checked_pairs(s, i + 2));
            assert forall|j: int| #![trigger done[j]] 0 <= j < done.len() implies states[j].handled_message(
                states[j + 1],
                done[j].0,
                done[j].1,
            ) by {
                if j < old_done.len() {
                    assert(done[j] == old_done[j]);
                    assert(states[j] == old_states[j]);
                    assert(states[j + 1] == old_states[j + 1]);
                } else {
                    assert(states[j] == prev);
                }
            }
        }
        i = i + 2;
    }
    proof {
        assert(checked_pairs(s, i as int) =~= Seq::empty());
        assert(all =~= done);
        assert(handled_in_turn(handed_pairs(root@), states));
    }
    Ok(())
}

/// Handle the bytes of a pack from a server: read them as one CBOR data
/// item, then as [`handle_next`] does. Where the bytes are no CBOR data item,
/// or a message number does not fit 32 bits, nothing is handled and `None`
/// comes back: a client stops there.
pub fn handle_next_mapped_bytes<U: MappedNoodlesClient>(message: &[u8], state: &mut U) -> (r: Option<Result<(), ClientError>>)
    ensures
        match cbor_item(message@) {
            None => r is None && *final(state) == *old(state),
            Some(v) => if check_root(v) is IdOverflow {
                r is None && *final(state) == *old(state)
            } else {
                r matches Some(res) && pack_handled(v, *old(state), *final(state), res)
            },
        },
{
    let root = match decode_cbor(message) {
        Some(v) => v,
        None => return None,
    };
    if !root_ids_fit(&root) {
        return None;
    }
    Some(handle_next(&root, state))
}

} // verus!
