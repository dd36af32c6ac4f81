//! The set of unspent outputs: a map from output references to outputs.
use crate::ledger::{Output, OutputRef, OutputView};
use vstd::prelude::*;

verus! {

/// A store of unspent outputs. Inserting never overwrites, and nullifying removes,
/// so an output can be consumed at most once.
pub trait UtxoSet {
    /// The live outputs, by reference.
    spec fn utxos(&self) -> Map<OutputRef, OutputView>;

    /// Whether `utxo_ref` names a live output.
    fn contains(&self, utxo_ref: OutputRef) -> (r: bool)
        ensures
            r == self.utxos().contains_key(utxo_ref),
    ;

    /// Stores `utxo` under `utxo_ref`, unless that reference is taken.
    fn insert(&mut self, utxo_ref: OutputRef, utxo: &Output) -> (r: bool)
        ensures
            r == !old(self).utxos().contains_key(utxo_ref),
            final(self).utxos() == (if r {
                old(self).utxos().insert(utxo_ref, utxo@)
            } else {
                old(self).utxos()
            }),
    ;

    /// Removes the output under `utxo_ref` and hands it back, if it is live.
    fn nullify(&mut self, utxo_ref: OutputRef) -> (r: Option<Output>)
        ensures
            final(self).utxos() == old(self).utxos().remove(utxo_ref),
            old(self).utxos().contains_key(utxo_ref) <==> r is Some,
            r matches Some(o) ==> o@ == old(self).utxos()[utxo_ref],
    ;

    /// The output under `utxo_ref`, if it is live; nothing is removed.
    fn peak(&self, utxo_ref: OutputRef) -> (r: Option<Output>)
        ensures
            self.utxos().contains_key(utxo_ref) <==> r is Some,
            r matches Some(o) ==> o@ == self.utxos()[utxo_ref],
    ;
}

/// The map that a list of entries stands for: a later entry wins over an earlier
/// one with the same reference.
pub open spec fn map_of(s: Seq<(OutputRef, Output)>) -> Map<OutputRef, OutputView>
    decreases s.len(),
{
    if s.len() == 0 {
        Map::empty()
    } else {
        map_of(s.drop_last()).insert(s.last().0, s.last().1@)
    }
}

/// Entries past `i` that do not mention `k` leave what the map says of `k`
/// unchanged.
proof fn lemma_map_of_prefix(s: Seq<(OutputRef, Output)>, i: int, k: OutputRef)
    requires
        0 <= i <= s.len(),
        forall|j: int| i <= j < s.len() ==> s[j].0 != k,
    ensures
        map_of(s).contains_key(k) == map_of(s.take(i)).contains_key(k),
        map_of(s).contains_key(k) ==> map_of(s)[k] == map_of(s.take(i))[k],
    decreases s.len(),
{
    if i < s.len() {
        assert(s.drop_last().take(i) =~= s.take(i));
        lemma_map_of_prefix(s.drop_last(), i, k);
    } else {
        assert(s.take(i) =~= s);
    }
}

/// Unspent outputs held in memory.
pub struct MemoryUtxoSet {
    entries: Vec<(OutputRef, Output)>,
}

impl MemoryUtxoSet {
    /// An empty store.
    pub fn new() -> (r: MemoryUtxoSet)
        ensures
            r.utxos() == Map::<OutputRef, OutputView>::empty(),
    {
        MemoryUtxoSet { entries: Vec::new() }
    }

    /// The position of the entry that holds `k`.
    fn find(&self, k: OutputRef) -> (r: Option<usize>)
        ensures
            r is None <==> !self.utxos().contains_key(k),
            r matches Some(j) ==> j < self.entries@.len() && self.entries@[j as int].0 == k
                && self.utxos()[k] == self.entries@[j as int].1@,
    {
        let mut i: usize = self.entries.len();
        while i > 0
            invariant
                i <= self.entries@.len(),
                forall|j: int| i <= j < self.entries@.len() ==> self.entries@[j].0 != k,
            decreases i,
        {
            if self.entries[i - 1].0 == k {
                proof {
                    let s = self.entries@;
                    lemma_map_of_prefix(s, i as int, k);
                    assert(s.take(i as int).drop_last() =~= s.take(i - 1));
                }
                return Some(i - 1);
            }
            i = i - 1;
        }
        proof {
            lemma_map_of_prefix(self.entries@, 0, k);
            assert(self.entries@.take(0).len() == 0);
        }
        None
    }
}

impl UtxoSet for MemoryUtxoSet {
    closed spec fn utxos(&self) -> Map<OutputRef, OutputView> {
        map_of(self.entries@)
    }

    fn contains(&self, utxo_ref: OutputRef) -> (r: bool) {
        self.find(utxo_ref).is_some()
    }

    fn insert(&mut self, utxo_ref: OutputRef, utxo: &Output) -> (r: bool) {
        if self.find(utxo_ref).is_some() {
            return false;
        }
        let ghost before = self.entries@;
        self.entries.push((utxo_ref, utxo.copied()));
        assert(self.entries@.drop_last() =~= before);
        true
    }

    fn nullify(&mut self, utxo_ref: OutputRef) -> (r: Option<Output>) {
        let found = self.find(utxo_ref);
        match found {
            None => {
                assert(self.utxos().remove(utxo_ref) =~= self.utxos());
                None
            },
            Some(j) => {
                let spent = self.entries[j].1.copied();
                let ghost s = self.entries@;
                let mut kept: Vec<(OutputRef, Output)> = Vec::new();
                let mut i: usize = 0;
                while i < self.entries.len()
                    invariant
                        s == self.entries@,
                        i <= s.len(),
                        map_of(kept@) == map_of(s.take(i as int)).remove(utxo_ref),
                    decreases s.len() - i,
                {
                    assert(s.take(i + 1).drop_last() =~= s.take(i as int));
                    if self.entries[i].0 != utxo_ref {
                        let ghost k0 = kept@;
                        kept.push((self.entries[i].0, self.entries[i].1.copied()));
                        assert(kept@.drop_last() =~= k0);
                        assert(map_of(kept@) =~= map_of(s.take(i + 1)).remove(utxo_ref));
                    } else {
                        assert(map_of(kept@) =~= map_of(s.take(i + 1)).remove(utxo_ref));
                    }
                    i = i + 1;
                }
                assert(s.take(s.len() as int) =~= s);
                self.entries = kept;
                Some(spent)
            },
        }
    }

    fn peak(&self, utxo_ref: OutputRef) -> (r: Option<Output>) {
        match self.find(utxo_ref) {
            None => None,
            Some(j) => Some(self.entries[j].1.copied()),
        }
    }
}

} // verus!
