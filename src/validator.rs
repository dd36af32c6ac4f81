//! Structural and authorization checks on a transaction, independent of what
//! its outputs mean.
use crate::ledger::{Hash256, Input, OutputRef, OutputView, Redeemer, Transaction};
use crate::store::UtxoSet;
use sp_core::sr25519::{Public, Signature};
use vstd::prelude::*;

verus! {

/// Whether sr25519 accepts `sig` as a signature of `msg` by the public key whose
/// 32 bytes are `key_lo`, then `key_hi`, each little endian.
pub uninterp spec fn sr25519_accepts(key_lo: u128, key_hi: u128, msg: Seq<u8>, sig: Seq<u8>) -> bool;

/// Relies on sp_io::crypto::sr25519_verify, whose answer depends on its arguments
/// alone, after sp_core's `Signature::try_from`, which refuses any slice that is
/// not 64 bytes long.
#[verifier::external_body]
fn sr25519_verify(key: &Hash256, msg: &[u8], witness: &[u8]) -> (r: bool)
    ensures
        r == (witness@.len() == 64 && sr25519_accepts(key.lo, key.hi, msg@, witness@)),
{
    let mut raw = [0u8; 32];
    raw[..16].copy_from_slice(&key.lo.to_le_bytes());
    raw[16..].copy_from_slice(&key.hi.to_le_bytes());
    match Signature::try_from(witness) {
        Ok(sig) => sp_io::crypto::sr25519_verify(&sig, msg, &Public::from_raw(raw)),
        Err(_) => false,
    }
}

/// A credential that decides whether a transaction may consume what it owns.
pub trait Redeem {
    /// Whether `witness` authorizes consuming by the transaction encoded as `tx`.
    spec fn spec_redeem(self, tx: Seq<u8>, witness: Seq<u8>) -> bool;

    fn redeem(self, tx: &[u8], witness: &[u8]) -> (r: bool)
        ensures
            r == self.spec_redeem(tx@, witness@),
    ;
}

impl Redeem for Redeemer {
    /// The witness must be a 64-byte sr25519 signature of the transaction by the
    /// key this redeemer holds.
    open spec fn spec_redeem(self, tx: Seq<u8>, witness: Seq<u8>) -> bool {
        witness.len() == 64 && sr25519_accepts(self.lo, self.hi, tx, witness)
    }

    fn redeem(self, tx: &[u8], witness: &[u8]) -> (r: bool) {
        sr25519_verify(&self, tx, witness)
    }
}

/// Whether two inputs of the sequence consume the same output.
pub open spec fn has_duplicate_inputs(inputs: Seq<Input>) -> bool {
    exists|i: int, j: int| 0 <= i < j < inputs.len() && inputs[i].output == inputs[j].output
}

/// Whether `input` consumes a live output of `utxos`, with a witness that its
/// redeemer accepts for the transaction encoded as `tx`.
pub open spec fn input_admissible(utxos: Map<OutputRef, OutputView>, input: Input, tx: Seq<u8>) -> bool {
    utxos.contains_key(input.output) && utxos[input.output].redeemer.spec_redeem(tx, input.witness@)
}

/// Whether a transaction passes the structural checks against `utxos`: no output is
/// consumed twice, and every input is admissible.
pub open spec fn pre_valid(utxos: Map<OutputRef, OutputView>, transaction: Transaction, tx: Seq<u8>) -> bool {
    &&& !has_duplicate_inputs(transaction.inputs@)
    &&& forall|i: int| 0 <= i < transaction.inputs@.len() ==> input_admissible(utxos, #[trigger] transaction.inputs@[i], tx)
}

/// The structural checks that every transaction must pass before its own
/// constraints are checked.
pub struct PreValidator;

impl PreValidator {
    /// Checks `transaction`, whose encoding the witnesses sign is `encoded`,
    /// against the live outputs of `set`. The first failure rejects it.
    pub fn pre_validate<S: UtxoSet>(set: &S, transaction: &Transaction, encoded: &[u8]) -> (r: Result<(), ()>)
        ensures
            r is Ok <==> pre_valid(set.utxos(), *transaction, encoded@),
    {
        let n = transaction.inputs.len();
        let mut j: usize = 0;
        while j < n
            invariant
                n == transaction.inputs@.len(),
                j <= n,
                forall|a: int, b: int| 0 <= a < b < j ==> transaction.inputs@[a].output != transaction.inputs@[b].output,
            decreases n - j,
        {
            let mut i: usize = 0;
            while i < j
                invariant
                    n == transaction.inputs@.len(),
                    i <= j < n,
                    forall|a: int| 0 <= a < i ==> transaction.inputs@[a].output != transaction.inputs@[j as int].output,
                decreases j - i,
            {
                if transaction.inputs[i].output == transaction.inputs[j].output {
                    assert(has_duplicate_inputs(transaction.inputs@)) by {
                        assert(0 <= i < j < transaction.inputs@.len() && transaction.inputs@[i as int].output == transaction.inputs@[j as int].output);
                    }
                    return Err(());
                }
                i = i + 1;
            }
            j = j + 1;
        }
        assert(!has_duplicate_inputs(transaction.inputs@));
        let mut k: usize = 0;
        while k < n
            invariant
                n == transaction.inputs@.len(),
                k <= n,
                !has_duplicate_inputs(transaction.inputs@),
                forall|a: int| 0 <= a < k ==> input_admissible(set.utxos(), #[trigger] transaction.inputs@[a], encoded@),
            decreases n - k,
        {
            let input = &transaction.inputs[k];
            match set.peak(input.output) {
                Some(utxo) => {
                    if !utxo.redeemer.redeem(encoded, input.witness.as_slice()) {
                        assert(!input_admissible(set.utxos(), transaction.inputs@[k as int], encoded@));
                        return Err(());
                    }
                },
                None => {
                    assert(!input_admissible(set.utxos(), transaction.inputs@[k as int], encoded@));
                    return Err(());
                },
            }
            k = k + 1;
        }
        Ok(())
    }
}

/// The references that a transaction's inputs consume.
pub open spec fn consumed_refs(transaction: Transaction) -> Set<OutputRef> {
    Set::new(|r: OutputRef| exists|i: int| 0 <= i < transaction.inputs@.len() && transaction.inputs@[i].output == r)
}

/// The live outputs after `transaction` is applied: what it consumes is nullified,
/// and the outputs of `created` are inserted.
pub open spec fn applied(
    utxos: Map<OutputRef, OutputView>,
    transaction: Transaction,
    created: Map<OutputRef, OutputView>,
) -> Map<OutputRef, OutputView> {
    utxos.remove_keys(consumed_refs(transaction)).union_prefer_right(created)
}

/// Once the output under `spent` is nullified, every transaction that consumes it
/// is rejected.
pub proof fn lemma_spent_output_rejected(
    utxos: Map<OutputRef, OutputView>,
    spent: OutputRef,
    transaction: Transaction,
    tx: Seq<u8>,
    i: int,
)
    requires
        0 <= i < transaction.inputs@.len(),
        transaction.inputs@[i].output == spent,
    ensures
        !pre_valid(utxos.remove(spent), transaction, tx),
{
    assert(!input_admissible(utxos.remove(spent), transaction.inputs@[i], tx));
}

/// A transaction that consumes at least one output is rejected when it is
/// presented again after it was applied, since what it consumes is gone (the
/// outputs it created have references of their own).
pub proof fn lemma_applied_transaction_rejected(
    utxos: Map<OutputRef, OutputView>,
    transaction: Transaction,
    created: Map<OutputRef, OutputView>,
    tx: Seq<u8>,
)
    requires
        transaction.inputs@.len() > 0,
        forall|i: int|
            0 <= i < transaction.inputs@.len() ==> !created.contains_key(#[trigger] transaction.inputs@[i].output),
    ensures
        !pre_valid(applied(utxos, transaction, created), transaction, tx),
{
    let r = transaction.inputs@[0].output;
    assert(consumed_refs(transaction).contains(r));
    assert(!applied(utxos, transaction, created).contains_key(r));
    assert(!input_admissible(applied(utxos, transaction, created), transaction.inputs@[0], tx));
}

} // verus!
