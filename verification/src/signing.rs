//! Which key unlocks which input, and with what.

use vstd::prelude::*;
use crate::cell::{Script, ScriptModel};
use crate::hash::Hash256;
use crate::key::{proof_of, unlocks, Key, KeyModel};
use crate::table::Table;
use crate::transaction::Witness;

verus! {

/// Whether the key at `at` is the first that unlocks what `lock` guards.
pub open spec fn first_key_at(keys: Seq<KeyModel>, lock: ScriptModel, at: int) -> bool {
    &&& 0 <= at < keys.len()
    &&& unlocks(keys[at], lock)
    &&& forall|i: int| 0 <= i < at ==> !unlocks(#[trigger] keys[i], lock)
}

/// Whether any of `keys` unlocks what `lock` guards.
pub open spec fn some_key_unlocks(keys: Seq<KeyModel>, lock: ScriptModel) -> bool {
    exists|at: int| 0 <= at < keys.len() && unlocks(#[trigger] keys[at], lock)
}

/// The place of the first key that unlocks what `lock` guards.
pub open spec fn first_key(keys: Seq<KeyModel>, lock: ScriptModel) -> int {
    choose|at: int| first_key_at(keys, lock, at)
}

/// The witness of an input that `lock` guards: what the first key that
/// unlocks it signs `message` with, and nothing where no key unlocks it.
pub open spec fn witness_for(keys: Seq<KeyModel>, lock: ScriptModel, message: Seq<u8>) -> Seq<u8> {
    if some_key_unlocks(keys, lock) {
        proof_of(keys[first_key(keys, lock)], message)
    } else {
        Seq::empty()
    }
}

/// What is known of the locks of the inputs: for each input its lock, or
/// nothing where the remote side gave no answer.
pub open spec fn lock_models(locks: Seq<Option<Script>>) -> Seq<Option<ScriptModel>> {
    Seq::new(
        locks.len(),
        |i: int|
            match locks[i] {
                Some(lock) => Some(lock@),
                None => None,
            },
    )
}

/// Whether the lock of every input is known.
pub open spec fn all_answered(locks: Seq<Option<ScriptModel>>) -> bool {
    forall|i: int| 0 <= i < locks.len() ==> (#[trigger] locks[i]) is Some
}

/// The witnesses of inputs that `locks` guard, in order.
pub open spec fn witnesses_for(
    keys: Seq<KeyModel>,
    locks: Seq<Option<ScriptModel>>,
    message: Seq<u8>,
) -> Seq<Seq<u8>> {
    Seq::new(locks.len(), |i: int| witness_for(keys, locks[i]->Some_0, message))
}

/// Whether each witness is a signature of 65 bytes where a key unlocks
/// the input, and empty where none does.
pub open spec fn filled_where_unlocked(
    witnesses: Seq<Seq<u8>>,
    keys: Seq<KeyModel>,
    locks: Seq<Option<ScriptModel>>,
) -> bool {
    forall|i: int|
        0 <= i < witnesses.len() && i < locks.len() ==> (#[trigger] witnesses[i]).len() == if some_key_unlocks(
            keys,
            locks[i]->Some_0,
        ) {
            65nat
        } else {
            0nat
        }
}

/// The keys of a table, in its order.
pub open spec fn listed_keys(rows: Seq<(Seq<char>, KeyModel)>) -> Seq<KeyModel> {
    Seq::new(rows.len(), |i: int| rows[i].1)
}

/// A lock has its first key in one place only.
pub proof fn lemma_first_key(keys: Seq<KeyModel>, lock: ScriptModel, at: int)
    requires
        first_key_at(keys, lock, at),
    ensures
        some_key_unlocks(keys, lock),
        first_key(keys, lock) == at,
{
    let chosen = first_key(keys, lock);
    assert(first_key_at(keys, lock, chosen));
    if chosen < at {
        assert(!unlocks(keys[chosen], lock));
    } else if at < chosen {
        assert(!unlocks(keys[at], lock));
    }
}

/// The witness of an input that `lock` guards.
pub fn sign_input(keys: &Table<String, Key>, lock: &Script, message: &Hash256) -> (witness:
    Witness)
    ensures
        witness@ == witness_for(listed_keys(keys.rows()), lock@, message@),
        witness@.len() == if some_key_unlocks(listed_keys(keys.rows()), lock@) {
            65nat
        } else {
            0nat
        },
{
    let ghost listed = listed_keys(keys.rows());
    let n = keys.len();
    let mut i: usize = 0;
    while i < n
        invariant
            i <= n,
            n == keys.rows().len(),
            listed == listed_keys(keys.rows()),
            forall|j: int| 0 <= j < i ==> !unlocks(#[trigger] listed[j], lock@),
        decreases n - i,
    {
        let key = keys.value_at(i);
        if key.unlocks(lock) {
            proof {
                lemma_first_key(listed, lock@, i as int);
            }
            return key.sign(message);
        }
        i = i + 1;
    }
    Vec::new()
}

/// The witnesses of inputs that `locks` guard, or nothing where a lock is
/// not known.
pub fn sign_inputs(keys: &Table<String, Key>, locks: &Vec<Option<Script>>, message: &Hash256) -> (r:
    Option<Vec<Witness>>)
    ensures
        r is Some <==> all_answered(lock_models(locks@)),
        r matches Some(witnesses) ==> crate::cell::models(witnesses@) == witnesses_for(
            listed_keys(keys.rows()),
            lock_models(locks@),
            message@,
        ) && filled_where_unlocked(
            crate::cell::models(witnesses@),
            listed_keys(keys.rows()),
            lock_models(locks@),
        ),
{
    let ghost known = lock_models(locks@);
    let ghost listed = listed_keys(keys.rows());
    let mut witnesses: Vec<Witness> = Vec::new();
    let mut i: usize = 0;
    while i < locks.len()
        invariant
            i <= locks.len(),
            known == lock_models(locks@),
            listed == listed_keys(keys.rows()),
            witnesses.len() == i,
            forall|j: int| 0 <= j < i ==> (#[trigger] known[j]) is Some,
            forall|j: int|
                0 <= j < i ==> (#[trigger] witnesses@[j])@ == witness_for(
                    listed,
                    known[j]->Some_0,
                    message@,
                ),
            forall|j: int|
                0 <= j < i ==> (#[trigger] witnesses@[j])@.len() == if some_key_unlocks(
                    listed,
                    known[j]->Some_0,
                ) {
                    65nat
                } else {
                    0nat
                },
        decreases locks.len() - i,
    {
        match &locks[i] {
            None => {
                assert(known[i as int] is None);
                return None;
            },
            Some(lock) => {
                let witness = sign_input(keys, lock, message);
                witnesses.push(witness);
            },
        }
        i = i + 1;
    }
    Some(witnesses)
}

} // verus!
