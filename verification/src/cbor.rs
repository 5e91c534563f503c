//! Reading CBOR data items from bytes, with `ciborium`.
use vstd::prelude::*;
use ciborium::value::Value as CiboriumValue;
use crate::value::{CborValue, ValueModel, models_of};

verus! {

#[verifier::external_type_specification]
#[verifier::external_body]
pub struct ExCiboriumValue(ciborium::value::Value);

/// What `ciborium::de::from_reader` reads from these bytes as one CBOR data
/// item, as a value of this library; `None` where it reports an error.
pub uninterp spec fn cbor_item(bytes: Seq<u8>) -> Option<ValueModel>;

/// Converts a data item that `ciborium` read into a value of this library,
/// variant by variant, a float by its bit pattern. Nothing is stated of it:
/// only [`decode_cbor`] and [`pairs_from_ciborium`] call it.
#[verifier::external_body]
fn from_ciborium(v: CiboriumValue) -> Option<CborValue> {
    Some(match v {
        CiboriumValue::Integer(i) => CborValue::Integer(i128::from(i)),
        CiboriumValue::Bytes(b) => CborValue::Bytes(b),
        CiboriumValue::Float(f) => CborValue::Float(f.to_bits()),
        CiboriumValue::Text(s) => CborValue::Text(s),
        CiboriumValue::Bool(b) => CborValue::Bool(b),
        CiboriumValue::Null => CborValue::Null,
        CiboriumValue::Tag(t, inner) => CborValue::Tag(t, Box::new(from_ciborium(*inner)?)),
        CiboriumValue::Array(a) => CborValue::Array(a.into_iter().map(from_ciborium).collect::<Option<_>>()?),
        CiboriumValue::Map(m) => CborValue::Dict(pairs_from_ciborium(m)?),
        _ => return None,
    })
}

/// Converts the key and value pairs of a map that `ciborium` read, pair by
/// pair, as [`from_ciborium`] does. Nothing is stated of it.
#[verifier::external_body]
fn pairs_from_ciborium(m: Vec<(CiboriumValue, CiboriumValue)>) -> Option<Vec<(CborValue, CborValue)>> {
    m.into_iter().map(|(k, v)| Some((from_ciborium(k)?, from_ciborium(v)?))).collect()
}

/// Reads one CBOR data item from bytes with `ciborium::de::from_reader`.
/// The contract claims that the result is what the name [`cbor_item`] gives
/// for the bytes: the item read, or nothing where the reader fails.
#[verifier::external_body]
pub(crate) fn decode_cbor(bytes: &[u8]) -> (r: Option<CborValue>)
    ensures
        match r {
            Some(v) => cbor_item(bytes@) == Some(v@),
            None => cbor_item(bytes@) is None,
        },
{
    match ciborium::de::from_reader::<CiboriumValue, &[u8]>(bytes) {
        Ok(v) => from_ciborium(v),
        Err(_) => None,
    }
}

/// The items of a CBOR array read from bytes; `None` where the bytes are no
/// CBOR data item or the item is no array.
pub fn decode_records(bytes: &[u8]) -> (r: Option<Vec<CborValue>>)
    ensures
        match cbor_item(bytes@) {
            Some(ValueModel::Array(items)) => r matches Some(v) && models_of(v@) == items,
            _ => r is None,
        },
{
    match decode_cbor(bytes) {
        Some(CborValue::Array(items)) => Some(items),
        _ => None,
    }
}

} // verus!
