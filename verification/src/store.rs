//! The staged transactions, each under its hash.

use vstd::prelude::*;
use crate::cell::models;
use crate::hash::Hash256;
use crate::table::Table;
use crate::transaction::{
    aligned, transaction_hash, with_witnesses, Transaction, TransactionModel, Witness,
};

verus! {

/// Whether every transaction is recorded under its own hash, with one
/// witness for each of its inputs.
pub open spec fn keyed_by_hash(staged: Map<Seq<u8>, TransactionModel>) -> bool {
    forall|hash: Seq<u8>| #[trigger]
        staged.contains_key(hash) ==> transaction_hash(staged[hash]) == hash && aligned(
            staged[hash],
        )
}

/// The staged transactions. Under one hash there is at most one.
pub struct Store {
    transactions: Table<Hash256, Transaction>,
}

impl View for Store {
    type V = Map<Seq<u8>, TransactionModel>;

    closed spec fn view(&self) -> Map<Seq<u8>, TransactionModel> {
        self.transactions@
    }
}

impl Store {
    /// Every staged transaction is under its own hash.
    #[verifier::type_invariant]
    pub open spec fn each_under_its_hash(self) -> bool {
        keyed_by_hash(self@)
    }

    /// A store that holds nothing.
    pub fn new() -> (store: Store)
        ensures
            store@ == Map::<Seq<u8>, TransactionModel>::empty(),
    {
        Store { transactions: Table::new() }
    }

    /// The number of staged transactions.
    pub fn len(&self) -> (n: usize)
        ensures
            self@.dom().finite(),
            n == self@.dom().len(),
            keyed_by_hash(self@),
    {
        proof {
            use_type_invariant(self);
        }
        self.transactions.len()
    }

    /// Records `tx` under its hash, in place of what was there, and gives
    /// the hash.
    pub fn stage(&mut self, tx: Transaction) -> (hash: Hash256)
        ensures
            hash@ == transaction_hash(tx@),
            final(self)@ == old(self)@.insert(hash@, tx@),
            keyed_by_hash(final(self)@),
    {
        proof {
            use_type_invariant(&*self);
            use_type_invariant(&tx);
        }
        let hash = tx.hash();
        // The table is taken out to be changed, and put back whole.
        let mut transactions: Table<Hash256, Transaction> = Table::new();
        core::mem::swap(&mut self.transactions, &mut transactions);
        transactions.put(hash, tx);
        self.transactions = transactions;
        hash
    }

    /// The transaction under `hash`, if there is one.
    pub fn get(&self, hash: &Hash256) -> (r: Option<&Transaction>)
        ensures
            match r {
                Some(tx) => self@.contains_key(hash@) && self@[hash@] == tx@,
                None => !self@.contains_key(hash@),
            },
            keyed_by_hash(self@),
    {
        proof {
            use_type_invariant(self);
        }
        self.transactions.get(hash)
    }

    /// Takes out the transaction under `hash`, if there is one.
    pub fn remove(&mut self, hash: &Hash256) -> (r: Option<Transaction>)
        ensures
            match r {
                Some(tx) => old(self)@.contains_key(hash@) && old(self)@[hash@] == tx@,
                None => !old(self)@.contains_key(hash@),
            },
            final(self)@ == old(self)@.remove(hash@),
            keyed_by_hash(final(self)@),
    {
        proof {
            use_type_invariant(&*self);
        }
        let mut transactions: Table<Hash256, Transaction> = Table::new();
        core::mem::swap(&mut self.transactions, &mut transactions);
        let r = transactions.take(hash);
        self.transactions = transactions;
        r
    }

    /// Gives the transaction under `hash` other witnesses, one for each of
    /// its inputs. Where nothing is under `hash`, or the witnesses are not
    /// as many as the inputs, nothing changes.
    pub fn replace_witnesses(&mut self, hash: &Hash256, witnesses: Vec<Witness>) -> (done: bool)
        ensures
            done <==> old(self)@.contains_key(hash@) && witnesses.len() == old(
                self,
            )@[hash@].inputs.len(),
            done ==> final(self)@ == old(self)@.insert(
                hash@,
                with_witnesses(old(self)@[hash@], models(witnesses@)),
            ),
            !done ==> final(self)@ == old(self)@,
            keyed_by_hash(final(self)@),
    {
        proof {
            use_type_invariant(&*self);
        }
        let fits = match self.transactions.get(hash) {
            Some(tx) => witnesses.len() == tx.inputs().len(),
            None => false,
        };
        if !fits {
            return false;
        }
        let mut transactions: Table<Hash256, Transaction> = Table::new();
        core::mem::swap(&mut self.transactions, &mut transactions);
        let done = match transactions.take(hash) {
            Some(tx) => match tx.replace_witnesses(witnesses) {
                Some(signed) => {
                    transactions.put(*hash, signed);
                    true
                },
                None => false,
            },
            None => false,
        };
        self.transactions = transactions;
        done
    }

    /// Every staged transaction, with its hash.
    pub fn list(&self) -> (all: Vec<(Transaction, Hash256)>)
        ensures
            self@.dom().finite(),
            all.len() == self@.dom().len(),
            forall|i: int|
                0 <= i < all.len() ==> self@.contains_key((#[trigger] all@[i]).1@) && self@[all@[i].1@]
                    == all@[i].0@,
            forall|i: int, j: int|
                0 <= i < j < all.len() ==> (#[trigger] all@[i]).1@ != (#[trigger] all@[j]).1@,
            keyed_by_hash(self@),
    {
        proof {
            use_type_invariant(self);
        }
        let n = self.transactions.len();
        let mut all: Vec<(Transaction, Hash256)> = Vec::new();
        let mut i: usize = 0;
        while i < n
            invariant
                i <= n,
                n == self.transactions.rows().len(),
                all.len() == i,
                forall|j: int|
                    0 <= j < i ==> (#[trigger] all@[j]).1@ == self.transactions.rows()[j].0
                        && all@[j].0@ == self.transactions.rows()[j].1,
            decreases n - i,
        {
            let hash = *self.transactions.key_at(i);
            let tx = self.transactions.value_at(i).copy();
            all.push((tx, hash));
            i = i + 1;
        }
        all
    }
}

} // verus!
