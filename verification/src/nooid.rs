//! Identifiers of NOODLES components: a slot and the generation of that slot.
use vstd::prelude::*;
use crate::value::{CborValue, ValueModel, models_of, lemma_models_of};
use crate::value_tools::{CBORTransform, FromValueError, FromValueErrorModel, wrong_type};

verus! {

/// An identifier for a component. Slots are recycled; each reuse of a slot
/// bumps its generation so that stale identifiers can be told apart.
#[derive(Debug, PartialEq, Eq, Hash, Clone, Copy, Structural)]
pub struct NooID {
    slot: u32,
    gen: u32,
}

impl Default for NooID {
    fn default() -> (r: Self)
        ensures
            r == Self::spec_new(u32::MAX, u32::MAX),
    {
        NooID { slot: u32::MAX, gen: u32::MAX }
    }
}

impl NooID {
    /// The slot of an identifier.
    pub closed spec fn spec_slot(self) -> u32 {
        self.slot
    }

    /// The generation of an identifier.
    pub closed spec fn spec_gen(self) -> u32 {
        self.gen
    }

    /// The identifier made of a slot and a generation.
    pub closed spec fn spec_new(slot: u32, gen: u32) -> NooID {
        NooID { slot, gen }
    }

    /// The identifier for the next use of the slot of `old`.
    pub fn next_generation(old: Self) -> (r: Self)
        requires
            old.spec_gen() < u32::MAX,
        ensures
            r.spec_slot() == old.spec_slot(),
            r.spec_gen() == old.spec_gen() + 1,
    {
        Self { slot: old.slot, gen: old.gen + 1 }
    }

    pub fn new(slot: u32, gen: u32) -> (r: Self)
        ensures
            r == Self::spec_new(slot, gen),
    {
        Self { slot, gen }
    }

    /// The identifier for the first use of a slot.
    pub fn new_with_slot(slot: u32) -> (r: Self)
        ensures
            r == Self::spec_new(slot, 0),
    {
        Self { slot, gen: 0 }
    }

    pub fn slot(&self) -> (r: u32)
        ensures
            r == self.spec_slot(),
    {
        self.slot
    }

    pub fn gen(&self) -> (r: u32)
        ensures
            r == self.spec_gen(),
    {
        self.gen
    }

    /// True when either part of the identifier holds the reserved value `u32::MAX`.
    pub fn valid(&self) -> (r: bool)
        ensures
            r == (self.spec_slot() == u32::MAX || self.spec_gen() == u32::MAX),
    {
        self.slot == u32::MAX || self.gen == u32::MAX
    }

    /// The key under which maps of the library store this identifier.
    pub open spec fn spec_key(self) -> u64 {
        ((self.spec_slot() as int) * 0x1_0000_0000 + (self.spec_gen() as int)) as u64
    }

    /// The key under which maps of the library store this identifier.
    pub fn key(&self) -> (r: u64)
        ensures
            r == self.spec_key(),
    {
        (self.slot as u64) * 0x1_0000_0000 + (self.gen as u64)
    }

    /// What [`NooID::from_value`] reads: an array whose first two elements are
    /// integers that fit a `u32`.
    pub open spec fn spec_from_value(v: ValueModel) -> Option<NooID> {
        match v {
            ValueModel::Array(a) => if a.len() >= 2 {
                match (a[0], a[1]) {
                    (ValueModel::Integer(s), ValueModel::Integer(g)) => if 0 <= s <= u32::MAX
                        && 0 <= g <= u32::MAX {
                        Some(NooID::spec_new(s as u32, g as u32))
                    } else {
                        None
                    },
                    _ => None,
                }
            } else {
                None
            },
            _ => None,
        }
    }

    /// Read an identifier from its CBOR form, a two element array.
    pub fn from_value(v: &CborValue) -> (r: Option<NooID>)
        ensures
            r == Self::spec_from_value(v@),
    {
        match v {
            CborValue::Array(arr) => {
                proof {
                    lemma_models_of(arr@);
                }
                if arr.len() < 2 {
                    return None;
                }
                let slot: u32 = match &arr[0] {
                    CborValue::Integer(s) => if 0 <= *s && *s <= u32::MAX as i128 {
                        *s as u32
                    } else {
                        return None;
                    },
                    _ => return None,
                };
                let gen: u32 = match &arr[1] {
                    CborValue::Integer(g) => if 0 <= *g && *g <= u32::MAX as i128 {
                        *g as u32
                    } else {
                        return None;
                    },
                    _ => return None,
                };
                Some(Self { slot, gen })
            },
            _ => None,
        }
    }

    /// The CBOR form of an identifier: `[slot, gen]`.
    pub open spec fn spec_to_value(self) -> ValueModel {
        ValueModel::Array(
            seq![ValueModel::Integer(self.spec_slot() as int), ValueModel::Integer(self.spec_gen() as int)],
        )
    }

    /// Write the CBOR form of an identifier: `[slot, gen]`.
    pub fn to_value(&self) -> (r: CborValue)
        ensures
            r@ == self.spec_to_value(),
    {
        let mut v: Vec<CborValue> = Vec::new();
        v.push(CborValue::Integer(self.slot as i128));
        v.push(CborValue::Integer(self.gen as i128));
        proof {
            crate::value::lemma_models_of_ext(v@, self.spec_to_value()->Array_0);
        }
        CborValue::Array(v)
    }
}

impl DeepView for NooID {
    type V = NooID;

    open spec fn deep_view(&self) -> NooID {
        *self
    }
}

impl CBORTransform for NooID {
    open spec fn encode_spec(m: NooID) -> ValueModel {
        m.spec_to_value()
    }

    open spec fn decode_spec(v: ValueModel) -> Result<NooID, FromValueErrorModel> {
        match NooID::spec_from_value(v) {
            Some(id) => Ok(id),
            None => Err(wrong_type("NooID"@, v)),
        }
    }

    fn try_from_cbor(value: CborValue) -> (r: Result<Self, FromValueError>) {
        match NooID::from_value(&value) {
            Some(id) => Ok(id),
            None => Err(FromValueError::WrongType {
                expected: String::from_str("NooID"),
                found: crate::value::get_value_type(&value),
            }),
        }
    }

    fn to_cbor(&self) -> (r: CborValue) {
        self.to_value()
    }

    proof fn lemma_round_trip(x: Self) {
    }
}

/// An identifier is its slot and its generation.
pub broadcast proof fn lemma_nooid_parts(slot: u32, gen: u32)
    ensures
        #[trigger] NooID::spec_new(slot, gen).spec_slot() == slot,
        NooID::spec_new(slot, gen).spec_gen() == gen,
{
}

/// Identifiers with the same slot and generation are the same identifier.
pub broadcast proof fn lemma_nooid_ext(a: NooID, b: NooID)
    ensures
        (#[trigger] a.spec_slot() == #[trigger] b.spec_slot() && a.spec_gen() == b.spec_gen()) ==> a == b,
{
}

/// Each identifier is made from its slot and its generation.
pub broadcast proof fn lemma_nooid_new_parts(a: NooID)
    ensures
        #[trigger] NooID::spec_new(a.spec_slot(), a.spec_gen()) == a,
{
}

pub broadcast group group_nooid {
    lemma_nooid_parts,
    lemma_nooid_ext,
    lemma_nooid_new_parts,
}

/// Reading back the CBOR form of an identifier gives the identifier.
pub proof fn lemma_nooid_value_round_trip(id: NooID)
    ensures
        NooID::spec_from_value(id.spec_to_value()) == Some(id),
{
}

/// Distinct identifiers have distinct keys.
pub proof fn lemma_nooid_key_injective(a: NooID, b: NooID)
    ensures
        a.spec_key() == b.spec_key() <==> a == b,
{
    broadcast use group_nooid;
    let ka = (a.spec_slot() as int) * 0x1_0000_0000 + (a.spec_gen() as int);
    let kb = (b.spec_slot() as int) * 0x1_0000_0000 + (b.spec_gen() as int);
    assert(0 <= ka <= u64::MAX);
    assert(0 <= kb <= u64::MAX);
    assert(a.spec_key() == ka);
    assert(b.spec_key() == kb);
    if ka == kb {
        if a.spec_slot() < b.spec_slot() {
            assert((a.spec_slot() as int) * 0x1_0000_0000 + 0x1_0000_0000 <= (b.spec_slot() as int) * 0x1_0000_0000);
        }
        if b.spec_slot() < a.spec_slot() {
            assert((b.spec_slot() as int) * 0x1_0000_0000 + 0x1_0000_0000 <= (a.spec_slot() as int) * 0x1_0000_0000);
        }
    }
}

} // verus!
