//! The ledger's records: references, outputs, inputs and transactions.
use crate::payload::TypedPayload;
use vstd::prelude::*;

verus! {

/// A 256-bit hash held as two little-endian 128-bit limbs: `lo` holds bytes 0..16
/// of its 32-byte form, `hi` bytes 16..32.
#[derive(Clone, Copy, Debug, PartialEq, Eq, Structural)]
pub struct Hash256 {
    pub lo: u128,
    pub hi: u128,
}

/// Identifies a ledger output.
pub type OutputRef = Hash256;

/// The credential that owns an output: an sr25519 public key.
pub type Redeemer = Hash256;

/// A four-byte tag naming how an output's data is encoded.
pub type TypeId = [u8; 4];

/// Whether two type tags are the same.
pub fn same_type_id(a: &TypeId, b: &TypeId) -> (r: bool)
    ensures
        r == (a@ == b@),
{
    let r = a[0] == b[0] && a[1] == b[1] && a[2] == b[2] && a[3] == b[3];
    if r {
        assert(a@ =~= b@);
    }
    r
}

/// A record of the ledger: who may spend it, and what it holds.
#[derive(Clone, Debug)]
pub struct Output {
    /// The credential that must authorize spending this output.
    pub redeemer: Redeemer,
    /// The data this output holds.
    pub payload: TypedPayload,
}

/// A claim to consume an existing output, with the witness that authorizes it.
#[derive(Clone, Debug)]
pub struct Input {
    /// The output that is consumed.
    pub output: OutputRef,
    /// The proof that the output may be consumed, most often a signature.
    pub witness: Vec<u8>,
}

/// A proposed change to the ledger.
#[derive(Clone, Debug)]
pub struct Transaction {
    /// The outputs this transaction consumes.
    pub inputs: Vec<Input>,
    /// Outputs that are read and not consumed.
    pub peeks: Option<Vec<Input>>,
    /// The outputs this transaction creates.
    pub outputs: Vec<Output>,
}

/// What an output holds, as plain values.
pub struct OutputView {
    pub redeemer: Redeemer,
    pub type_id: Seq<u8>,
    pub data: Seq<u8>,
}

impl View for Output {
    type V = OutputView;

    open spec fn view(&self) -> OutputView {
        OutputView { redeemer: self.redeemer, type_id: self.payload.type_id@, data: self.payload.data@ }
    }
}

impl Output {
    /// A copy of this output.
    pub fn copied(&self) -> (r: Output)
        ensures
            r@ == self@,
    {
        let data = self.payload.data.clone();
        assert(data@ =~= self.payload.data@);
        Output { redeemer: self.redeemer, payload: TypedPayload { data, type_id: self.payload.type_id } }
    }
}

} // verus!
