//! Pieces: the kinds of data that outputs hold, each with its own tag, decoding
//! and transaction rule, and typed reads of stored outputs.
use crate::codec::{decode_u128_at, le_u128};
use crate::ledger::{same_type_id, Hash256, Output, OutputRef, OutputView, Transaction, TypeId};
use crate::store::UtxoSet;
use vstd::prelude::*;

verus! {

/// A kind of data that outputs can hold.
pub trait TuxedoPiece {
    /// The type of the data held in outputs of this piece.
    type Data;

    /// The tag that marks data of this piece.
    spec fn spec_type_id() -> Seq<u8>;

    /// The value that a byte sequence decodes to, if any.
    spec fn spec_decode(bytes: Seq<u8>) -> Option<Self::Data>;

    fn type_id() -> (r: TypeId)
        ensures
            r@ == Self::spec_type_id(),
    ;

    fn decode(bytes: &[u8]) -> (r: Option<Self::Data>)
        ensures
            r == Self::spec_decode(bytes@),
    ;

    /// Whether `transaction` obeys this piece's rule.
    spec fn spec_validate(&self, transaction: Transaction) -> bool;

    fn validate(&self, transaction: &Transaction) -> (r: Result<(), ()>)
        ensures
            r is Ok <==> self.spec_validate(*transaction),
    ;
}

/// What reading an output as data of the piece `P` gives.
pub open spec fn spec_piece_data<P: TuxedoPiece>(o: OutputView) -> Result<P::Data, ()> {
    if o.type_id != P::spec_type_id() {
        Err(())
    } else {
        match P::spec_decode(o.data) {
            Some(d) => Ok(d),
            None => Err(()),
        }
    }
}

/// Typed reads of outputs.
pub struct PieceExtracter;

impl PieceExtracter {
    /// Reads `utxo` as data of the piece `P`: fails unless the tag is `P`'s and the
    /// bytes decode.
    pub fn extract_from_output<P: TuxedoPiece>(utxo: &Output) -> (r: Result<P::Data, ()>)
        ensures
            r == spec_piece_data::<P>(utxo@),
    {
        if !same_type_id(&utxo.payload.type_id, &P::type_id()) {
            return Err(());
        }
        match P::decode(utxo.payload.data.as_slice()) {
            Some(d) => Ok(d),
            None => Err(()),
        }
    }

    /// Reads the live output under `key` as data of the piece `P`; fails when there
    /// is none.
    pub fn extract<P: TuxedoPiece, S: UtxoSet>(set: &S, key: OutputRef) -> (r: Result<P::Data, ()>)
        ensures
            r == (if set.utxos().contains_key(key) {
                spec_piece_data::<P>(set.utxos()[key])
            } else {
                Err(())
            }),
    {
        match set.peak(key) {
            Some(utxo) => Self::extract_from_output::<P>(&utxo),
            None => Err(()),
        }
    }
}

/// Outputs that record a 256-bit hash, as proof that it existed. Transactions of
/// this piece carry no constraint beyond the structural checks.
#[derive(Clone, Copy, Debug, PartialEq, Eq, Structural)]
pub struct ExistencePiece;

impl TuxedoPiece for ExistencePiece {
    type Data = Hash256;

    /// "3333".
    open spec fn spec_type_id() -> Seq<u8> {
        seq![51u8, 51u8, 51u8, 51u8]
    }

    open spec fn spec_decode(bytes: Seq<u8>) -> Option<Hash256> {
        if bytes.len() >= 32 {
            Some(Hash256 { lo: le_u128(bytes, 0), hi: le_u128(bytes, 16) })
        } else {
            None
        }
    }

    fn type_id() -> (r: TypeId) {
        let r: TypeId = [51u8, 51u8, 51u8, 51u8];
        assert(r@ =~= Self::spec_type_id());
        r
    }

    fn decode(bytes: &[u8]) -> (r: Option<Hash256>) {
        if bytes.len() < 32 {
            return None;
        }
        match (decode_u128_at(bytes, 0), decode_u128_at(bytes, 16)) {
            (Some(lo), Some(hi)) => Some(Hash256 { lo, hi }),
            _ => None,
        }
    }

    open spec fn spec_validate(&self, transaction: Transaction) -> bool {
        true
    }

    fn validate(&self, transaction: &Transaction) -> (r: Result<(), ()>) {
        Ok(())
    }
}

} // verus!
