//! Small shared types of the protocol.
use vstd::prelude::*;
use crate::value::{CborValue, ValueModel};
use crate::value_tools::{CBORTransform, FromValueError, FromValueErrorModel, wrong_type};
use crate::value::get_value_type;

verus! {

/// Layout of one element of a buffer view.
#[derive(Debug, Copy, Clone, PartialEq, Eq, Structural)]
pub enum Format {
    U8,
    U16,
    U32,
    U8VEC4,
    U16VEC2,
    VEC2,
    VEC3,
    VEC4,
    MAT3,
    MAT4,
}

impl Default for Format {
    fn default() -> (r: Self)
        ensures
            r == Format::U8,
    {
        Format::U8
    }
}

// =============================================================================

/// A struct to represent an array of bytes, for proper serialization to CBOR
#[derive(Debug, Default, PartialEq, Eq)]
pub struct ByteBuff(Vec<u8>);

impl View for ByteBuff {
    type V = Seq<u8>;

    closed spec fn view(&self) -> Seq<u8> {
        self.0@
    }
}

impl DeepView for ByteBuff {
    type V = Seq<u8>;

    open spec fn deep_view(&self) -> Seq<u8> {
        self@
    }
}

impl ByteBuff {
    pub fn new(data: Vec<u8>) -> (r: Self)
        ensures
            r@ == data@,
    {
        Self(data)
    }

    pub fn bytes(&self) -> (r: &[u8])
        ensures
            r@ == self@,
    {
        self.0.as_slice()
    }
}

impl CBORTransform for ByteBuff {
    open spec fn encode_spec(m: Seq<u8>) -> ValueModel {
        ValueModel::Bytes(m)
    }

    open spec fn decode_spec(v: ValueModel) -> Result<Seq<u8>, FromValueErrorModel> {
        match v {
            ValueModel::Bytes(b) => Ok(b),
            _ => Err(wrong_type("Bytes"@, v)),
        }
    }

    fn try_from_cbor(value: CborValue) -> (r: Result<Self, FromValueError>) {
        match value {
            CborValue::Bytes(b) => Ok(ByteBuff(b)),
            _ => Err(FromValueError::WrongType { expected: String::from_str("Bytes"), found: get_value_type(&value) }),
        }
    }

    fn to_cbor(&self) -> (r: CborValue) {
        CborValue::Bytes(self.0.clone())
    }

    proof fn lemma_round_trip(x: Self) {
    }
}

// =============================================================================

/// The message that announces the deletion of a component.
#[derive(Debug)]
pub struct CommonDeleteMessage<IDType> {
    pub id: IDType,
}

} // verus!
