//! The workbench: named cells and keys, and the transactions staged from
//! them.

use vstd::prelude::*;
use crate::assembly::{
    lemma_first_failure, parse_dependencies, read_dependencies, reference_results, resolve_names,
    values,
};
use crate::cell::{
    models, CellInput, CellInputModel, CellOutput, CellOutputModel, Script, ScriptModel,
};
use crate::error::{fails, NameList, TxError};
use crate::hash::Hash256;
use crate::key::{Key, KeyModel};
use crate::registry::{resolve, Record, Registry};
use crate::signing::{
    all_answered, filled_where_unlocked, listed_keys, lock_models, sign_inputs, witnesses_for,
};
use crate::store::{keyed_by_hash, Store};
use crate::table::{has_row, put_row, rows_map, Table};
use crate::transaction::{
    aligned, transaction_hash, unsigned, with_witnesses, Transaction, TransactionModel,
};
use crate::verdict::{judge, judged, RemoteAnswer, Verdict};

verus! {

/// What a `Workbench` stands for.
pub struct WorkbenchModel {
    /// Whether the store behind the workbench could be opened.
    pub available: bool,
    /// The cells to create, by name.
    pub cells: Map<Seq<char>, Record<CellOutputModel>>,
    /// The cells to consume, by name.
    pub inputs: Map<Seq<char>, Record<CellInputModel>>,
    /// The keys with their names, in the order in which they are listed.
    pub keys: Seq<(Seq<char>, KeyModel)>,
    /// The staged transactions, by hash.
    pub staged: Map<Seq<u8>, TransactionModel>,
}

/// The transaction that an assembly gives. The dependency tokens are read
/// first, then the store is needed, then the input names are looked up, then
/// the output names; the first failure is the result.
pub open spec fn assembled(
    wb: WorkbenchModel,
    deps: Seq<Seq<char>>,
    inputs: Seq<Seq<char>>,
    outputs: Seq<Seq<char>>,
) -> Result<TransactionModel, TxError> {
    match parse_dependencies(deps) {
        Err(e) => Err(e),
        Ok(deps) => if !wb.available {
            Err(TxError::StoreUnavailable)
        } else {
            match resolve_names(wb.inputs, inputs, NameList::Inputs) {
                Err(e) => Err(e),
                Ok(inputs) => match resolve_names(wb.cells, outputs, NameList::Outputs) {
                    Err(e) => Err(e),
                    Ok(outputs) => Ok(unsigned(deps, inputs, outputs)),
                },
            }
        },
    }
}

/// The workbench after `tx` is recorded under `hash`.
pub open spec fn recorded(wb: WorkbenchModel, hash: Seq<u8>, tx: TransactionModel) -> WorkbenchModel {
    WorkbenchModel { staged: wb.staged.insert(hash, tx), ..wb }
}

/// The workbench after `tx` is staged: recorded under its hash.
pub open spec fn staged_with(wb: WorkbenchModel, tx: TransactionModel) -> WorkbenchModel {
    recorded(wb, transaction_hash(tx), tx)
}

/// The workbench after an assembly: with the transaction staged, or as it
/// was where the assembly fails.
pub open spec fn after_add(
    wb: WorkbenchModel,
    deps: Seq<Seq<char>>,
    inputs: Seq<Seq<char>>,
    outputs: Seq<Seq<char>>,
) -> WorkbenchModel {
    match assembled(wb, deps, inputs, outputs) {
        Ok(tx) => staged_with(wb, tx),
        Err(_) => wb,
    }
}

/// The workbench after the transaction under `hash` is signed: with the
/// signed transaction in the place of the other, or as it was where signing
/// fails.
pub open spec fn after_signing(
    wb: WorkbenchModel,
    hash: Seq<u8>,
    locks: Seq<Option<ScriptModel>>,
) -> WorkbenchModel {
    match signed(wb, hash, locks) {
        Ok(tx) => recorded(wb, hash, tx),
        Err(_) => wb,
    }
}

/// The workbench without a record under `hash`.
pub open spec fn unstaged(wb: WorkbenchModel, hash: Seq<u8>) -> WorkbenchModel {
    WorkbenchModel { staged: wb.staged.remove(hash), ..wb }
}

/// The workbench after the transaction under `hash` is taken out, or as it
/// was where none is found.
pub open spec fn after_remove(wb: WorkbenchModel, hash: Seq<u8>) -> WorkbenchModel {
    match fetched(wb, hash) {
        Ok(_) => unstaged(wb, hash),
        Err(_) => wb,
    }
}

/// The transaction staged under `hash`.
pub open spec fn fetched(wb: WorkbenchModel, hash: Seq<u8>) -> Result<TransactionModel, TxError> {
    if !wb.available {
        Err(TxError::StoreUnavailable)
    } else if !wb.staged.contains_key(hash) {
        Err(TxError::NotFound)
    } else {
        Ok(wb.staged[hash])
    }
}

/// The transaction under `hash` after signing, given the locks of its
/// inputs as far as the remote side told them: each input has the witness
/// of the first listed key that unlocks it, or an empty one. Signing fails
/// where a lock is not known.
pub open spec fn signed(
    wb: WorkbenchModel,
    hash: Seq<u8>,
    locks: Seq<Option<ScriptModel>>,
) -> Result<TransactionModel, TxError> {
    match fetched(wb, hash) {
        Err(e) => Err(e),
        Ok(tx) => if locks.len() != tx.inputs.len() || !all_answered(locks) {
            Err(TxError::RemoteUnavailable)
        } else {
            Ok(with_witnesses(tx, witnesses_for(listed_keys(wb.keys), locks, hash)))
        },
    }
}

/// What the remote answer on the transaction under `hash` comes to.
pub open spec fn verified(
    wb: WorkbenchModel,
    hash: Seq<u8>,
    max_cost: u64,
    answer: RemoteAnswer,
) -> Result<Verdict, TxError> {
    match fetched(wb, hash) {
        Err(e) => Err(e),
        Ok(_) => judged(answer, max_cost),
    }
}

/// Whether `all` lists the staged transactions: each with its hash, each
/// once, and none missing.
pub open spec fn lists(
    staged: Map<Seq<u8>, TransactionModel>,
    all: Seq<(Transaction, Hash256)>,
) -> bool {
    &&& staged.dom().finite()
    &&& all.len() == staged.dom().len()
    &&& forall|i: int|
        0 <= i < all.len() ==> {
            &&& staged.contains_key((#[trigger] all[i]).1@)
            &&& staged[all[i].1@] == all[i].0@
            &&& transaction_hash(all[i].0@) == all[i].1@
        }
    &&& forall|i: int, j: int|
        0 <= i < j < all.len() ==> (#[trigger] all[i]).1@ != (#[trigger] all[j]).1@
}

/// Whether `listing` holds the listed keys, in their order.
pub open spec fn lists_keys(keys: Seq<(Seq<char>, KeyModel)>, listing: Seq<Key>) -> bool {
    models(listing) == listed_keys(keys)
}

/// Named cells, named keys and staged transactions, as the store holds
/// them for the time of one operation.
pub struct Workbench {
    available: bool,
    cells: Registry<CellOutput>,
    inputs: Registry<CellInput>,
    keys: Table<String, Key>,
    store: Store,
}

impl View for Workbench {
    type V = WorkbenchModel;

    closed spec fn view(&self) -> WorkbenchModel {
        WorkbenchModel {
            available: self.available,
            cells: self.cells@,
            inputs: self.inputs@,
            keys: self.keys.rows(),
            staged: self.store@,
        }
    }
}

impl Workbench {
    /// A workbench over an open store that holds nothing.
    pub fn new() -> (wb: Workbench)
        ensures
            wb@.available,
            wb@.cells == Map::<Seq<char>, Record<CellOutputModel>>::empty(),
            wb@.inputs == Map::<Seq<char>, Record<CellInputModel>>::empty(),
            wb@.keys == Seq::<(Seq<char>, KeyModel)>::empty(),
            wb@.staged == Map::<Seq<u8>, TransactionModel>::empty(),
    {
        Workbench {
            available: true,
            cells: Registry::new(),
            inputs: Registry::new(),
            keys: Table::new(),
            store: Store::new(),
        }
    }

    /// A workbench over a store that could not be opened.
    pub fn unavailable() -> (wb: Workbench)
        ensures
            !wb@.available,
            wb@.cells == Map::<Seq<char>, Record<CellOutputModel>>::empty(),
            wb@.inputs == Map::<Seq<char>, Record<CellInputModel>>::empty(),
            wb@.keys == Seq::<(Seq<char>, KeyModel)>::empty(),
            wb@.staged == Map::<Seq<u8>, TransactionModel>::empty(),
    {
        Workbench {
            available: false,
            cells: Registry::new(),
            inputs: Registry::new(),
            keys: Table::new(),
            store: Store::new(),
        }
    }

    /// Whether the store behind this workbench could be opened.
    pub fn is_available(&self) -> (r: bool)
        ensures
            r == self@.available,
            keyed_by_hash(self@.staged),
    {
        proof {
            use_type_invariant(&self.store);
        }
        self.available
    }

    /// Names a cell to create.
    pub fn put_cell(&mut self, name: String, record: Record<CellOutput>)
        ensures
            final(self)@ == (WorkbenchModel {
                cells: old(self)@.cells.insert(name@, record@),
                ..old(self)@
            }),
    {
        self.cells.put(name, record);
    }

    /// Names a cell to consume.
    pub fn put_input(&mut self, name: String, record: Record<CellInput>)
        ensures
            final(self)@ == (WorkbenchModel {
                inputs: old(self)@.inputs.insert(name@, record@),
                ..old(self)@
            }),
    {
        self.inputs.put(name, record);
    }

    /// Names a key. A key under a new name is listed behind the others.
    pub fn put_key(&mut self, name: String, key: Key)
        ensures
            final(self)@ == (WorkbenchModel {
                keys: put_row(old(self)@.keys, name@, key@),
                ..old(self)@
            }),
    {
        self.keys.put(name, key);
    }

    /// Stages a transaction as it is, witnesses and all, under its hash.
    pub fn restore(&mut self, tx: Transaction) -> (hash: Hash256)
        ensures
            hash@ == transaction_hash(tx@),
            final(self)@ == staged_with(old(self)@, tx@),
            keyed_by_hash(final(self)@.staged),
    {
        self.store.stage(tx)
    }

    /// The cell to create that goes by `name`.
    pub fn cell(&self, name: &String) -> (r: Result<&CellOutput, TxError>)
        ensures
            match r {
                Ok(cell) => self@.available && resolve(self@.cells, name@) == Ok::<
                    CellOutputModel,
                    TxError,
                >(cell@),
                Err(e) => if self@.available {
                    resolve(self@.cells, name@) == Err::<CellOutputModel, TxError>(e)
                } else {
                    e == TxError::StoreUnavailable
                },
            },
    {
        if !self.available {
            return Err(TxError::StoreUnavailable);
        }
        self.cells.get(name)
    }

    /// The cell to consume that goes by `name`.
    pub fn input(&self, name: &String) -> (r: Result<CellInput, TxError>)
        ensures
            match r {
                Ok(input) => self@.available && resolve(self@.inputs, name@) == Ok::<
                    CellInputModel,
                    TxError,
                >(input@),
                Err(e) => if self@.available {
                    resolve(self@.inputs, name@) == Err::<CellInputModel, TxError>(e)
                } else {
                    e == TxError::StoreUnavailable
                },
            },
    {
        if !self.available {
            return Err(TxError::StoreUnavailable);
        }
        match self.inputs.get(name) {
            Ok(input) => Ok(*input),
            Err(e) => Err(e),
        }
    }

    /// The key that goes by `name`.
    pub fn key(&self, name: &String) -> (r: Result<Key, TxError>)
        ensures
            match r {
                Ok(key) => self@.available && has_row(self@.keys, name@) && rows_map(
                    self@.keys,
                )[name@] == key@,
                Err(e) => e == if !self@.available {
                    TxError::StoreUnavailable
                } else {
                    TxError::NotFound
                } && (self@.available ==> !has_row(self@.keys, name@)),
            },
    {
        if !self.available {
            return Err(TxError::StoreUnavailable);
        }
        match self.keys.get(name) {
            Some(key) => Ok(key.copy()),
            None => Err(TxError::NotFound),
        }
    }

    /// Every known key, in the order in which they are listed.
    pub fn keys(&self) -> (r: Result<Vec<Key>, TxError>)
        ensures
            match r {
                Ok(listing) => self@.available && lists_keys(self@.keys, listing@),
                Err(e) => !self@.available && e == TxError::StoreUnavailable,
            },
    {
        if !self.available {
            return Err(TxError::StoreUnavailable);
        }
        let n = self.keys.len();
        let mut listing: Vec<Key> = Vec::new();
        let mut i: usize = 0;
        while i < n
            invariant
                i <= n,
                n == self.keys.rows().len(),
                listing.len() == i,
                forall|j: int| 0 <= j < i ==> (#[trigger] listing@[j])@ == self.keys.rows()[j].1,
            decreases n - i,
        {
            listing.push(self.keys.value_at(i).copy());
            i = i + 1;
        }
        assert(models(listing@) =~= listed_keys(self.keys.rows()));
        Ok(listing)
    }

    fn resolve_inputs(&self, names: &Vec<String>) -> (r: Result<Vec<CellInput>, TxError>)
        ensures
            match r {
                Ok(inputs) => resolve_names(self@.inputs, models(names@), NameList::Inputs) == Ok::<
                    Seq<CellInputModel>,
                    TxError,
                >(models(inputs@)),
                Err(e) => resolve_names(self@.inputs, models(names@), NameList::Inputs) == Err::<
                    Seq<CellInputModel>,
                    TxError,
                >(e),
            },
    {
        let ghost results = reference_results(self@.inputs, models(names@));
        let mut inputs: Vec<CellInput> = Vec::new();
        let mut i: usize = 0;
        while i < names.len()
            invariant
                i <= names.len(),
                results == reference_results(self@.inputs, models(names@)),
                inputs.len() == i,
                forall|j: int|
                    0 <= j < i ==> (#[trigger] results[j]) == Ok::<CellInputModel, TxError>(
                        inputs@[j]@,
                    ),
            decreases names.len() - i,
        {
            match self.inputs.get(&names[i]) {
                Ok(input) => {
                    inputs.push(*input);
                },
                Err(e) => {
                    proof {
                        lemma_first_failure(results, i as int);
                    }
                    return Err(
                        match e {
                            TxError::NotFound => TxError::UnknownReference {
                                list: NameList::Inputs,
                                at: i,
                            },
                            _ => e,
                        },
                    );
                },
            }
            i = i + 1;
        }
        assert(values(results) =~= models(inputs@));
        Ok(inputs)
    }

    fn resolve_outputs(&self, names: &Vec<String>) -> (r: Result<Vec<CellOutput>, TxError>)
        ensures
            match r {
                Ok(outputs) => resolve_names(self@.cells, models(names@), NameList::Outputs) == Ok::<
                    Seq<CellOutputModel>,
                    TxError,
                >(models(outputs@)),
                Err(e) => resolve_names(self@.cells, models(names@), NameList::Outputs) == Err::<
                    Seq<CellOutputModel>,
                    TxError,
                >(e),
            },
    {
        let ghost results = reference_results(self@.cells, models(names@));
        let mut outputs: Vec<CellOutput> = Vec::new();
        let mut i: usize = 0;
        while i < names.len()
            invariant
                i <= names.len(),
                results == reference_results(self@.cells, models(names@)),
                outputs.len() == i,
                forall|j: int|
                    0 <= j < i ==> (#[trigger] results[j]) == Ok::<CellOutputModel, TxError>(
                        outputs@[j]@,
                    ),
            decreases names.len() - i,
        {
            match self.cells.get(&names[i]) {
                Ok(output) => {
                    outputs.push(output.copy());
                },
                Err(e) => {
                    proof {
                        lemma_first_failure(results, i as int);
                    }
                    return Err(
                        match e {
                            TxError::NotFound => TxError::UnknownReference {
                                list: NameList::Outputs,
                                at: i,
                            },
                            _ => e,
                        },
                    );
                },
            }
            i = i + 1;
        }
        assert(values(results) =~= models(outputs@));
        Ok(outputs)
    }

    /// Assembles a transaction from dependency tokens and the names of
    /// cells, with an empty witness for each input, and stages it under its
    /// hash. Where anything fails, nothing is staged.
    pub fn add(&mut self, deps: &Vec<String>, inputs: &Vec<String>, outputs: &Vec<String>) -> (r:
        Result<Transaction, TxError>)
        ensures
            match assembled(old(self)@, models(deps@), models(inputs@), models(outputs@)) {
                Ok(tx) => r matches Ok(staged) && staged@ == tx,
                Err(e) => fails(r, e),
            },
            final(self)@ == after_add(old(self)@, models(deps@), models(inputs@), models(outputs@)),
            r matches Ok(staged) ==> aligned(staged@),
            keyed_by_hash(final(self)@.staged),
    {
        proof {
            use_type_invariant(&self.store);
        }
        let deps = match read_dependencies(deps) {
            Ok(deps) => deps,
            Err(e) => {
                return Err(e);
            },
        };
        if !self.available {
            return Err(TxError::StoreUnavailable);
        }
        let inputs = match self.resolve_inputs(inputs) {
            Ok(inputs) => inputs,
            Err(e) => {
                return Err(e);
            },
        };
        let outputs = match self.resolve_outputs(outputs) {
            Ok(outputs) => outputs,
            Err(e) => {
                return Err(e);
            },
        };
        let tx = Transaction::assemble(deps, inputs, outputs);
        let staged = tx.copy();
        proof {
            use_type_invariant(&staged);
        }
        self.store.stage(tx);
        Ok(staged)
    }

    /// The transaction staged under `hash`.
    pub fn get(&self, hash: &Hash256) -> (r: Result<Transaction, TxError>)
        ensures
            match r {
                Ok(tx) => fetched(self@, hash@) == Ok::<TransactionModel, TxError>(tx@),
                Err(e) => fetched(self@, hash@) == Err::<TransactionModel, TxError>(e),
            },
            r matches Ok(tx) ==> aligned(tx@) && transaction_hash(tx@) == hash@,
    {
        if !self.available {
            return Err(TxError::StoreUnavailable);
        }
        match self.store.get(hash) {
            Some(tx) => Ok(tx.copy()),
            None => Err(TxError::NotFound),
        }
    }

    /// Takes the transaction staged under `hash` out of the workbench.
    pub fn remove(&mut self, hash: &Hash256) -> (r: Result<Transaction, TxError>)
        ensures
            match r {
                Ok(tx) => fetched(old(self)@, hash@) == Ok::<TransactionModel, TxError>(tx@),
                Err(e) => fetched(old(self)@, hash@) == Err::<TransactionModel, TxError>(e),
            },
            final(self)@ == after_remove(old(self)@, hash@),
            keyed_by_hash(final(self)@.staged),
    {
        if !self.available {
            proof {
            use_type_invariant(&self.store);
        }
            return Err(TxError::StoreUnavailable);
        }
        match self.store.remove(hash) {
            Some(tx) => Ok(tx),
            None => {
                assert(self.store@ =~= old(self).store@);
                Err(TxError::NotFound)
            },
        }
    }

    /// Every staged transaction, with its hash.
    pub fn list(&self) -> (r: Result<Vec<(Transaction, Hash256)>, TxError>)
        ensures
            match r {
                Ok(all) => self@.available && lists(self@.staged, all@),
                Err(e) => !self@.available && e == TxError::StoreUnavailable,
            },
    {
        if !self.available {
            return Err(TxError::StoreUnavailable);
        }
        Ok(self.store.list())
    }

    /// Signs the transaction staged under `hash` with the known keys, given
    /// the lock of each of its inputs as the remote side told it, or nothing
    /// where it did not answer. The new witnesses take the place of the old
    /// ones. Where anything fails, nothing changes.
    pub fn set_witnesses_by_keys(&mut self, hash: &Hash256, locks: &Vec<Option<Script>>) -> (r:
        Result<Transaction, TxError>)
        ensures
            match signed(old(self)@, hash@, lock_models(locks@)) {
                Ok(tx) => r matches Ok(now) && now@ == tx,
                Err(e) => fails(r, e),
            },
            final(self)@ == after_signing(old(self)@, hash@, lock_models(locks@)),
            r matches Ok(now) ==> aligned(now@) && transaction_hash(now@) == hash@,
            r matches Ok(now) ==> filled_where_unlocked(
                now@.witnesses,
                listed_keys(old(self)@.keys),
                lock_models(locks@),
            ),
            keyed_by_hash(final(self)@.staged),
    {
        proof {
            use_type_invariant(&self.store);
        }
        if !self.available {
            return Err(TxError::StoreUnavailable);
        }
        let inputs = match self.store.get(hash) {
            Some(tx) => tx.inputs().len(),
            None => {
                return Err(TxError::NotFound);
            },
        };
        if locks.len() != inputs {
            return Err(TxError::RemoteUnavailable);
        }
        let witnesses = match sign_inputs(&self.keys, locks, hash) {
            Some(witnesses) => witnesses,
            None => {
                return Err(TxError::RemoteUnavailable);
            },
        };
        assert(witnesses.len() == inputs) by {
            assert(models(witnesses@).len() == witnesses@.len());
        }
        let done = self.store.replace_witnesses(hash, witnesses);
        match self.store.get(hash) {
            Some(tx) => Ok(tx.copy()),
            None => Err(TxError::NotFound),
        }
    }

    /// Holds the answer of the remote verifier on the transaction staged
    /// under `hash` against a budget.
    pub fn verify(&self, hash: &Hash256, max_cost: u64, answer: RemoteAnswer) -> (r: Result<
        Verdict,
        TxError,
    >)
        ensures
            r == verified(self@, hash@, max_cost, answer),
    {
        if !self.available {
            return Err(TxError::StoreUnavailable);
        }
        match self.store.get(hash) {
            Some(_) => judge(answer, max_cost),
            None => Err(TxError::NotFound),
        }
    }
}

} // verus!
