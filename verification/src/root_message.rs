//! Splitting a pack of server messages into its messages.
//!
//! A pack is an array that interleaves message numbers and message contents.
use vstd::prelude::*;
use crate::common::ServerMessages;
use crate::value::{CborValue, ValueModel, models_of, lemma_models_of};
use crate::recording::as_u32;

verus! {

/// Why a pack of server messages cannot be read.
#[derive(Debug, Clone, Copy, PartialEq, Eq, Structural)]
pub enum RootMessageError {
    /// A message number is not an integer that fits 32 bits.
    InvalidId,
    /// The reserved number for unknown messages was sent.
    UnknownId,
    /// A message number is the last element of the pack.
    MissingContent,
}

/// What splitting a pack gives: the known messages with their contents, up
/// to the first number that names no message.
pub open spec fn spec_split_root(s: Seq<ValueModel>) -> Result<Seq<(ServerMessages, ValueModel)>, RootMessageError>
    decreases s.len(),
{
    if s.len() == 0 {
        Ok(Seq::empty())
    } else {
        match as_u32(s[0]) {
            None => Err(RootMessageError::InvalidId),
            Some(n) => match ServerMessages::spec_from_u32(n) {
                None => Ok(Seq::empty()),
                Some(m) => if m == ServerMessages::Unknown {
                    Err(RootMessageError::UnknownId)
                } else if s.len() < 2 {
                    Err(RootMessageError::MissingContent)
                } else {
                    match spec_split_root(s.subrange(2, s.len() as int)) {
                        Ok(rest) => Ok(seq![(m, s[1])] + rest),
                        Err(e) => Err(e),
                    }
                },
            },
        }
    }
}

/// Pair a message with its content: the reserved number for unknown messages,
/// or a number without content, cannot be read.
pub fn push_next(id: ServerMessages, content: Option<CborValue>) -> (r: Result<(ServerMessages, CborValue), RootMessageError>)
    ensures
        id == ServerMessages::Unknown ==> r == Err::<(ServerMessages, CborValue), RootMessageError>(RootMessageError::UnknownId),
        id != ServerMessages::Unknown && content is None ==> r == Err::<(ServerMessages, CborValue), RootMessageError>(RootMessageError::MissingContent),
        id != ServerMessages::Unknown && content is Some ==> r == Ok::<(ServerMessages, CborValue), RootMessageError>((id, content->Some_0)),
{
    if id == ServerMessages::Unknown {
        return Err(RootMessageError::UnknownId);
    }
    match content {
        Some(v) => Ok((id, v)),
        None => Err(RootMessageError::MissingContent),
    }
}

fn read_id(v: &CborValue) -> (r: Option<u32>)
    ensures
        r == as_u32(v@),
{
    match v {
        CborValue::Integer(i) => if 0 <= *i && *i <= 0xffff_ffffi128 {
            Some(*i as u32)
        } else {
            None
        },
        _ => None,
    }
}

/// Split a pack of server messages into its messages and their contents.
pub fn split_root_message(values: Vec<CborValue>) -> (r: Result<Vec<(ServerMessages, CborValue)>, RootMessageError>)
    ensures
        match r {
            Ok(l) => spec_split_root(models_of(values@)) == Ok::<Seq<(ServerMessages, ValueModel)>, RootMessageError>(
                l@.map_values(|p: (ServerMessages, CborValue)| (p.0, p.1@)),
            ),
            Err(e) => spec_split_root(models_of(values@)) == Err::<Seq<(ServerMessages, ValueModel)>, RootMessageError>(e),
        },
{
    let ghost s = models_of(values@);
    proof {
        lemma_models_of(values@);
        assert(s.subrange(0, s.len() as int) =~= s);
    }
    let mut out: Vec<(ServerMessages, CborValue)> = Vec::new();
    let mut i: usize = 0;
    while i < values.len()
        invariant
            i <= values.len(),
            s == models_of(values@),
            s.len() == values@.len(),
            forall|j: int| 0 <= j < values@.len() ==> #[trigger] s[j] == values@[j]@,
            spec_split_root(s) == match spec_split_root(s.subrange(i as int, s.len() as int)) {
                Ok(rest) => Ok::<Seq<(ServerMessages, ValueModel)>, RootMessageError>(
                    out@.map_values(|p: (ServerMessages, CborValue)| (p.0, p.1@)) + rest,
                ),
                Err(e) => Err(e),
            },
        decreases values.len() - i,
    {
        let ghost t = s.subrange(i as int, s.len() as int);
        let ghost before = out@.map_values(|p: (ServerMessages, CborValue)| (p.0, p.1@));
        assert(t[0] == s[i as int]);
        let n = match read_id(&values[i]) {
            Some(n) => n,
            None => return Err(RootMessageError::InvalidId),
        };
        let id = match ServerMessages::from_u32(n) {
            Some(id) => id,
            None => {
                proof {
                    assert(out@.map_values(|p: (ServerMessages, CborValue)| (p.0, p.1@)) + Seq::<(ServerMessages, ValueModel)>::empty()
                        =~= out@.map_values(|p: (ServerMessages, CborValue)| (p.0, p.1@)));
                }
                return Ok(out);
            },
        };
        let content = if i + 1 < values.len() {
            Some(values[i + 1].deep_clone())
        } else {
            None
        };
        let pair = match push_next(id, content) {
            Ok(p) => p,
            Err(e) => return Err(e),
        };
        assert(t[1] == s[i + 1]);
        out.push(pair);
        proof {
            assert(t.subrange(2, t.len() as int) =~= s.subrange(i + 2, s.len() as int));
            assert(out@.map_values(|p: (ServerMessages, CborValue)| (p.0, p.1@)) =~= before.push((id, s[i + 1])));
            match spec_split_root(s.subrange(i + 2, s.len() as int)) {
                Ok(rest) => {
                    assert(before + (seq![(id, s[i + 1])] + rest) =~= before.push((id, s[i + 1])) + rest);
                },
                Err(_) => {},
            }
        }
        i = i + 2;
    }
    proof {
        assert(s.subrange(i as int, s.len() as int) =~= Seq::<ValueModel>::empty());
        assert(out@.map_values(|p: (ServerMessages, CborValue)| (p.0, p.1@)) + Seq::<(ServerMessages, ValueModel)>::empty()
            =~= out@.map_values(|p: (ServerMessages, CborValue)| (p.0, p.1@)));
    }
    Ok(out)
}

/// The pack that stands for a list of messages with their contents.
pub open spec fn spec_join_root(l: Seq<(ServerMessages, ValueModel)>) -> Seq<ValueModel>
    decreases l.len(),
{
    if l.len() == 0 {
        Seq::empty()
    } else {
        seq![ValueModel::Integer(l[0].0.spec_to_u32() as int), l[0].1] + spec_join_root(l.subrange(1, l.len() as int))
    }
}

/// Splitting the pack written for messages other than the reserved unknown
/// message gives the messages back.
pub proof fn lemma_root_round_trip(l: Seq<(ServerMessages, ValueModel)>)
    requires
        forall|i: int| 0 <= i < l.len() ==> (#[trigger] l[i]).0 != ServerMessages::Unknown,
    ensures
        spec_split_root(spec_join_root(l)) == Ok::<Seq<(ServerMessages, ValueModel)>, RootMessageError>(l),
    decreases l.len(),
{
    if l.len() > 0 {
        let rest = l.subrange(1, l.len() as int);
        assert forall|i: int| 0 <= i < rest.len() implies (#[trigger] rest[i]).0 != ServerMessages::Unknown by {
            assert(rest[i] == l[i + 1]);
        }
        lemma_root_round_trip(rest);
        crate::common::lemma_server_message_number_round_trip(l[0].0);
        let s = spec_join_root(l);
        assert(s.subrange(2, s.len() as int) =~= spec_join_root(rest));
        assert(seq![l[0]] + rest =~= l);
    } else {
        assert(l =~= Seq::<(ServerMessages, ValueModel)>::empty());
    }
}

/// The messages a pack splits into are known messages.
pub proof fn lemma_split_root_known(s: Seq<ValueModel>)
    ensures
        spec_split_root(s) matches Ok(l) ==> forall|i: int| 0 <= i < l.len() ==> (#[trigger] l[i]).0 != ServerMessages::Unknown,
    decreases s.len(),
{
    if s.len() >= 2 {
        lemma_split_root_known(s.subrange(2, s.len() as int));
        if let Ok(l) = spec_split_root(s) {
            if let Ok(rest) = spec_split_root(s.subrange(2, s.len() as int)) {
                assert forall|i: int| 0 <= i < l.len() implies (#[trigger] l[i]).0 != ServerMessages::Unknown by {
                    if i > 0 {
                        assert(l[i] == rest[i - 1]);
                    }
                }
            }
        }
    }
}

} // verus!
