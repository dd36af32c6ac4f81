//! Typed payloads: bytes tagged with the identifier of the type they encode, and
//! extraction of typed values from them.
use crate::codec::{decode_u128_at, le_u128, push_u128};
use crate::ledger::{same_type_id, TypeId};
use vstd::prelude::*;

verus! {

/// Why a payload could not be read as the type asked for.
#[derive(Clone, Copy, Debug, PartialEq, Eq, Structural)]
pub enum DynamicTypingError {
    /// The payload's tag names another type.
    WrongType,
    /// The tag matched, but the bytes do not decode.
    DecodingFailed,
}

/// Encoded data together with the tag of the type it encodes.
#[derive(Clone, Debug)]
pub struct TypedPayload {
    pub data: Vec<u8>,
    pub type_id: TypeId,
}

/// The tag of a coin of the token `token`: "coi" followed by the token.
pub open spec fn coin_type_id(token: u8) -> Seq<u8> {
    seq![99u8, 111u8, 105u8, token]
}

/// What reading a payload as a coin of `token` gives: its value.
pub open spec fn spec_extract_coin(p: TypedPayload, token: u8) -> Result<u128, DynamicTypingError> {
    if p.type_id@ != coin_type_id(token) {
        Err(DynamicTypingError::WrongType)
    } else if p.data@.len() < 16 {
        Err(DynamicTypingError::DecodingFailed)
    } else {
        Ok(le_u128(p.data@, 0))
    }
}

/// The tag of a coin of the token `token`: "coi" followed by the token.
pub fn coin_tag(token: u8) -> (r: TypeId)
    ensures
        r@ == coin_type_id(token),
{
    let r: TypeId = [99u8, 111u8, 105u8, token];
    assert(r@ =~= coin_type_id(token));
    r
}

impl TypedPayload {
    /// The payload of a coin of `token` worth `value`.
    pub fn coin(token: u8, value: u128) -> (r: TypedPayload)
        ensures
            spec_extract_coin(r, token) == Ok::<u128, DynamicTypingError>(value),
    {
        let mut data: Vec<u8> = Vec::new();
        push_u128(&mut data, value);
        TypedPayload { data, type_id: coin_tag(token) }
    }

    /// Reads the payload as a coin of `token` and gives its value.
    pub fn extract_coin(&self, token: u8) -> (r: Result<u128, DynamicTypingError>)
        ensures
            r == spec_extract_coin(*self, token),
    {
        if !same_type_id(&self.type_id, &coin_tag(token)) {
            return Err(DynamicTypingError::WrongType);
        }
        match decode_u128_at(self.data.as_slice(), 0) {
            Some(v) => Ok(v),
            None => Err(DynamicTypingError::DecodingFailed),
        }
    }
}

} // verus!
