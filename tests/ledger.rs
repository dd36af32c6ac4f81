use sp_core::{sr25519, Pair};
use utxo_dex::ledger::{Hash256, Input, Output, Transaction};
use utxo_dex::payload::TypedPayload;
use utxo_dex::store::{MemoryUtxoSet, UtxoSet};
use utxo_dex::validator::{PreValidator, Redeem};

fn keypair(seed: u8) -> sr25519::Pair {
    sr25519::Pair::from_seed(&[seed; 32])
}

fn key_of(pair: &sr25519::Pair) -> Hash256 {
    let raw = pair.public().0;
    let mut lo = [0u8; 16];
    let mut hi = [0u8; 16];
    lo.copy_from_slice(&raw[..16]);
    hi.copy_from_slice(&raw[16..]);
    Hash256 { lo: u128::from_le_bytes(lo), hi: u128::from_le_bytes(hi) }
}

fn reference(n: u128) -> Hash256 {
    Hash256 { lo: n, hi: 0xabcd }
}

fn owned_coin(owner: Hash256, value: u128) -> Output {
    Output { redeemer: owner, payload: TypedPayload::coin(0, value) }
}

/// A store with one coin of `owner` under `reference(1)`.
fn store_with_coin(owner: Hash256) -> MemoryUtxoSet {
    let mut set = MemoryUtxoSet::new();
    assert!(set.insert(reference(1), &owned_coin(owner, 100)));
    set
}

fn spend(inputs: Vec<Input>) -> Transaction {
    Transaction { inputs, peeks: None, outputs: vec![owned_coin(reference(50), 100)] }
}

fn signed_input(pair: &sr25519::Pair, output: Hash256, message: &[u8]) -> Input {
    Input { output, witness: pair.sign(message).0.to_vec() }
}

#[test]
fn store_inserts_once_and_nullifies_once() {
    let mut set = MemoryUtxoSet::new();
    let coin = owned_coin(reference(9), 5);
    assert!(!set.contains(reference(1)));
    assert!(set.insert(reference(1), &coin));
    assert!(set.contains(reference(1)));
    assert!(!set.insert(reference(1), &owned_coin(reference(9), 6)));
    assert_eq!(set.peak(reference(1)).unwrap().payload.extract_coin(0), Ok(5));
    assert!(set.contains(reference(1)));
    let spent = set.nullify(reference(1)).unwrap();
    assert_eq!(spent.payload.extract_coin(0), Ok(5));
    assert!(!set.contains(reference(1)));
    assert!(set.nullify(reference(1)).is_none());
    assert!(set.peak(reference(1)).is_none());
}

#[test]
fn nullify_keeps_other_outputs() {
    let mut set = MemoryUtxoSet::new();
    assert!(set.insert(reference(1), &owned_coin(reference(9), 1)));
    assert!(set.insert(reference(2), &owned_coin(reference(9), 2)));
    assert!(set.insert(reference(3), &owned_coin(reference(9), 3)));
    assert!(set.nullify(reference(2)).is_some());
    assert_eq!(set.peak(reference(1)).unwrap().payload.extract_coin(0), Ok(1));
    assert_eq!(set.peak(reference(3)).unwrap().payload.extract_coin(0), Ok(3));
    assert!(!set.contains(reference(2)));
}

#[test]
fn redeemer_accepts_its_own_signature_only() {
    let alice = keypair(1);
    let bob = keypair(2);
    let message = b"some transaction";
    let witness = alice.sign(message).0.to_vec();
    assert!(key_of(&alice).redeem(message, &witness));
    assert!(!key_of(&bob).redeem(message, &witness));
    assert!(!key_of(&alice).redeem(b"another transaction", &witness));
    assert!(!key_of(&alice).redeem(message, &witness[..63]));
}

#[test]
fn signed_spend_passes_pre_validation() {
    let alice = keypair(1);
    let set = store_with_coin(key_of(&alice));
    let message = b"encoded spend";
    let tx = spend(vec![signed_input(&alice, reference(1), message)]);
    assert_eq!(PreValidator::pre_validate(&set, &tx, message), Ok(()));
}

#[test]
fn spend_signed_by_another_key_fails() {
    let alice = keypair(1);
    let set = store_with_coin(key_of(&alice));
    let message = b"encoded spend";
    let tx = spend(vec![signed_input(&keypair(3), reference(1), message)]);
    assert_eq!(PreValidator::pre_validate(&set, &tx, message), Err(()));
}

#[test]
fn spend_of_missing_output_fails() {
    let alice = keypair(1);
    let set = store_with_coin(key_of(&alice));
    let message = b"encoded spend";
    let tx = spend(vec![signed_input(&alice, reference(2), message)]);
    assert_eq!(PreValidator::pre_validate(&set, &tx, message), Err(()));
}

#[test]
fn duplicate_inputs_fail() {
    let alice = keypair(1);
    let set = store_with_coin(key_of(&alice));
    let message = b"encoded spend";
    let input = signed_input(&alice, reference(1), message);
    let tx = spend(vec![input.clone(), input]);
    assert_eq!(PreValidator::pre_validate(&set, &tx, message), Err(()));
}

#[test]
fn transaction_without_inputs_passes_pre_validation() {
    let set = MemoryUtxoSet::new();
    let tx = spend(vec![]);
    assert_eq!(PreValidator::pre_validate(&set, &tx, b"anything"), Ok(()));
}

#[test]
fn spending_a_nullified_output_fails() {
    let alice = keypair(1);
    let mut set = store_with_coin(key_of(&alice));
    let message = b"second spend";
    let tx = spend(vec![signed_input(&alice, reference(1), message)]);
    assert_eq!(PreValidator::pre_validate(&set, &tx, message), Ok(()));
    assert!(set.nullify(reference(1)).is_some());
    assert_eq!(PreValidator::pre_validate(&set, &tx, message), Err(()));
}

#[test]
fn applied_transaction_fails_a_second_time() {
    let alice = keypair(1);
    let mut set = store_with_coin(key_of(&alice));
    let message = b"encoded spend";
    let tx = spend(vec![signed_input(&alice, reference(1), message)]);
    assert_eq!(PreValidator::pre_validate(&set, &tx, message), Ok(()));
    for input in tx.inputs.iter() {
        assert!(set.nullify(input.output).is_some());
    }
    for (i, output) in tx.outputs.iter().enumerate() {
        assert!(set.insert(reference(100 + i as u128), output));
    }
    assert_eq!(PreValidator::pre_validate(&set, &tx, message), Err(()));
}
