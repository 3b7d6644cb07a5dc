//! The commands of the workbench. A command that needs the remote side is
//! worked off in two steps: the first says what to ask, the second takes
//! the answer.

use vstd::prelude::*;
use crate::cell::{models, CellInput, CellInputModel, Script};
use crate::error::{fails, TxError};
use crate::hash::{parse_hash, Hash256};
use crate::outpoint::{OutPoint, OutPointModel};
use crate::signing::lock_models;
use crate::store::keyed_by_hash;
use crate::transaction::{transaction_hash, Transaction, TransactionModel};
use crate::verdict::{RemoteAnswer, Verdict};
use crate::workbench::{
    after_add, after_remove, after_signing, assembled, fetched, lists, signed, verified,
    Workbench, WorkbenchModel,
};

verus! {

/// What the workbench can be told to do. Hashes come as text, with or
/// without the prefix.
#[derive(Debug, PartialEq, Eq)]
pub enum Command {
    /// Assemble a transaction and stage it; sign it with the known keys
    /// where `set_witnesses_by_keys` is set.
    Add { deps: Vec<String>, inputs: Vec<String>, outputs: Vec<String>, set_witnesses_by_keys: bool },
    /// Set the witness of one input by hand. Nothing is done for it.
    SetWitness,
    /// Sign a staged transaction with the known keys.
    SetWitnessesByKeys { tx_hash: String },
    /// Show a staged transaction.
    Show { tx_hash: String },
    /// Take a staged transaction out.
    Remove { tx_hash: String },
    /// Have the remote verifier judge a staged transaction that may cost
    /// `max_cost` at most.
    Verify { tx_hash: String, max_cost: u64 },
    /// Show all staged transactions.
    List,
}

/// What a command gives in the end.
#[derive(Debug, PartialEq, Eq)]
pub enum Reply {
    /// One transaction, with its hash.
    Transaction { hash: Hash256, transaction: Transaction },
    /// The verdict on a transaction.
    Verdict(Verdict),
    /// Every staged transaction with its hash.
    Listing(Vec<(Transaction, Hash256)>),
    /// Nothing to show.
    Nothing,
}

/// How far a command has come.
#[derive(Debug, PartialEq, Eq)]
pub enum Step {
    /// The command is worked off.
    Done(Reply),
    /// The transaction under `tx_hash` is to be signed: the remote side is
    /// to tell the lock of each of these cells, which are the ones that the
    /// transaction consumes, in order.
    NeedLocks { tx_hash: Hash256, out_points: Vec<OutPoint> },
    /// The remote verifier is to judge `transaction`, which is staged under
    /// `tx_hash`.
    NeedVerdict { tx_hash: Hash256, transaction: Transaction, max_cost: u64 },
}

/// What the remote side said.
#[derive(Debug, PartialEq, Eq)]
pub enum Answer {
    /// The lock of each cell asked for, or nothing where it did not tell.
    Locks(Vec<Option<Script>>),
    /// The verifier's answer on a transaction.
    Verdict(RemoteAnswer),
}

/// The cells that the inputs of a transaction consume.
pub open spec fn consumed(inputs: Seq<CellInputModel>) -> Seq<OutPointModel> {
    Seq::new(inputs.len(), |i: int| inputs[i].previous_output)
}

/// The hash that an argument writes, as the only argument of its command.
pub open spec fn hash_argument(text: Seq<char>) -> Result<Seq<u8>, TxError> {
    match parse_hash(text) {
        Some(hash) => Ok(hash),
        None => Err(TxError::InvalidHash { at: 0 }),
    }
}

/// Whether `step` asks for the locks of the inputs of `tx`, to sign it
/// under `hash`.
pub open spec fn asks_locks(step: Step, hash: Seq<u8>, tx: TransactionModel) -> bool {
    step matches Step::NeedLocks { tx_hash, out_points } && tx_hash@ == hash && models(out_points@)
        == consumed(tx.inputs)
}

/// Whether `reply` is the transaction `tx`, with its hash.
pub open spec fn tells(reply: Reply, tx: TransactionModel) -> bool {
    reply matches Reply::Transaction { hash, transaction } && transaction@ == tx && hash@
        == transaction_hash(tx)
}

/// Whether `step` ends a command with the transaction `tx`.
pub open spec fn shows(step: Step, tx: TransactionModel) -> bool {
    step matches Step::Done(reply) && tells(reply, tx)
}

/// Whether a command takes a workbench from `before` to `after` with the
/// result `r`.
pub open spec fn processed(
    before: WorkbenchModel,
    command: Command,
    after: WorkbenchModel,
    r: Result<Step, TxError>,
) -> bool {
    match command {
        Command::Add { deps, inputs, outputs, set_witnesses_by_keys } => after == after_add(
            before,
            models(deps@),
            models(inputs@),
            models(outputs@),
        ) && match assembled(before, models(deps@), models(inputs@), models(outputs@)) {
            Err(e) => fails(r, e),
            Ok(tx) => {
                &&& r matches Ok(step)
                &&& if set_witnesses_by_keys {
                    asks_locks(step, transaction_hash(tx), tx)
                } else {
                    shows(step, tx)
                }
            },
        },
        Command::SetWitness => after == before && r matches Ok(Step::Done(Reply::Nothing)),
        Command::SetWitnessesByKeys { tx_hash } => after == before && match hash_argument(
            tx_hash@,
        ) {
            Err(e) => fails(r, e),
            Ok(hash) => match fetched(before, hash) {
                Err(e) => fails(r, e),
                Ok(tx) => r matches Ok(step) && asks_locks(step, hash, tx),
            },
        },
        Command::Show { tx_hash } => after == before && match hash_argument(tx_hash@) {
            Err(e) => fails(r, e),
            Ok(hash) => match fetched(before, hash) {
                Err(e) => fails(r, e),
                Ok(tx) => r matches Ok(step) && shows(step, tx),
            },
        },
        Command::Remove { tx_hash } => match hash_argument(tx_hash@) {
            Err(e) => after == before && fails(r, e),
            Ok(hash) => after == after_remove(before, hash) && match fetched(before, hash) {
                Err(e) => fails(r, e),
                Ok(tx) => r matches Ok(step) && shows(step, tx),
            },
        },
        Command::Verify { tx_hash, max_cost } => after == before && match hash_argument(tx_hash@) {
            Err(e) => fails(r, e),
            Ok(hash) => match fetched(before, hash) {
                Err(e) => fails(r, e),
                Ok(tx) => r matches Ok(Step::NeedVerdict { tx_hash: asked, transaction, max_cost: budget })
                    && asked@ == hash && transaction@ == tx && budget == max_cost,
            },
        },
        Command::List => after == before && if before.available {
            r matches Ok(Step::Done(Reply::Listing(all))) && lists(before.staged, all@)
        } else {
            fails(r, TxError::StoreUnavailable)
        },
    }
}

/// Whether an answer takes a workbench from `before` to `after` and a
/// command from `step` to the result `r`. An answer of the wrong kind counts
/// as none.
pub open spec fn resumed(
    before: WorkbenchModel,
    step: Step,
    answer: Answer,
    after: WorkbenchModel,
    r: Result<Reply, TxError>,
) -> bool {
    match step {
        Step::Done(reply) => after == before && (r matches Ok(same) && same == reply),
        Step::NeedLocks { tx_hash, out_points } => match answer {
            Answer::Locks(locks) => after == after_signing(
                before,
                tx_hash@,
                lock_models(locks@),
            ) && match signed(before, tx_hash@, lock_models(locks@)) {
                Err(e) => fails(r, e),
                Ok(tx) => r matches Ok(reply) && tells(reply, tx),
            },
            Answer::Verdict(_) => after == before && fails(r, TxError::RemoteUnavailable),
        },
        Step::NeedVerdict { tx_hash, transaction, max_cost } => after == before && match answer {
            Answer::Verdict(remote) => match verified(before, tx_hash@, max_cost, remote) {
                Err(e) => fails(r, e),
                Ok(verdict) => r matches Ok(Reply::Verdict(given)) && given == verdict,
            },
            Answer::Locks(_) => fails(r, TxError::RemoteUnavailable),
        },
    }
}

/// The commands on the locally staged transactions, over one workbench.
pub struct LocalTxSubCommand {
    workbench: Workbench,
}

/// Reads the hash that is the only argument of a command.
fn read_hash(text: &String) -> (r: Result<Hash256, TxError>)
    ensures
        match r {
            Ok(hash) => hash_argument(text@) == Ok::<Seq<u8>, TxError>(hash@),
            Err(e) => hash_argument(text@) == Err::<Seq<u8>, TxError>(e),
        },
{
    match Hash256::parse(text.as_str()) {
        Some(hash) => Ok(hash),
        None => Err(TxError::InvalidHash { at: 0 }),
    }
}

/// The cells that `inputs` consume.
fn out_points_of(inputs: &Vec<CellInput>) -> (out_points: Vec<OutPoint>)
    ensures
        models(out_points@) == consumed(models(inputs@)),
{
    let mut out_points: Vec<OutPoint> = Vec::new();
    let mut i: usize = 0;
    while i < inputs.len()
        invariant
            i <= inputs.len(),
            out_points.len() == i,
            forall|j: int| 0 <= j < i ==> (#[trigger] out_points@[j])@ == inputs@[j]@.previous_output,
        decreases inputs.len() - i,
    {
        out_points.push(inputs[i].previous_output);
        i = i + 1;
    }
    out_points
}

impl LocalTxSubCommand {
    /// The workbench that the commands work on.
    pub closed spec fn state(&self) -> WorkbenchModel {
        self.workbench@
    }

    /// The commands over `workbench`.
    pub fn new(workbench: Workbench) -> (commands: LocalTxSubCommand)
        ensures
            commands.state() == workbench@,
    {
        LocalTxSubCommand { workbench }
    }

    /// The workbench as the commands left it.
    pub fn into_workbench(self) -> (workbench: Workbench)
        ensures
            workbench@ == self.state(),
    {
        self.workbench
    }

    /// The workbench as it stands.
    pub fn workbench(&self) -> (workbench: &Workbench)
        ensures
            workbench@ == self.state(),
    {
        &self.workbench
    }

    /// Works off `command` as far as can be done without the remote side.
    pub fn process(&mut self, command: &Command) -> (r: Result<Step, TxError>)
        ensures
            processed(old(self).state(), *command, final(self).state(), r),
            keyed_by_hash(final(self).state().staged),
    {
        // The call tells what holds of the staged transactions at all times.
        let _ = self.workbench.is_available();
        match command {
            Command::Add { deps, inputs, outputs, set_witnesses_by_keys } => {
                match self.workbench.add(deps, inputs, outputs) {
                    Err(e) => Err(e),
                    Ok(tx) => {
                        let tx_hash = tx.hash();
                        if *set_witnesses_by_keys {
                            let out_points = out_points_of(tx.inputs());
                            Ok(Step::NeedLocks { tx_hash, out_points })
                        } else {
                            Ok(Step::Done(Reply::Transaction { hash: tx_hash, transaction: tx }))
                        }
                    },
                }
            },
            Command::SetWitness => Ok(Step::Done(Reply::Nothing)),
            Command::SetWitnessesByKeys { tx_hash } => {
                let tx_hash = match read_hash(tx_hash) {
                    Ok(hash) => hash,
                    Err(e) => {
                        return Err(e);
                    },
                };
                match self.workbench.get(&tx_hash) {
                    Err(e) => Err(e),
                    Ok(tx) => {
                        let out_points = out_points_of(tx.inputs());
                        Ok(Step::NeedLocks { tx_hash, out_points })
                    },
                }
            },
            Command::Show { tx_hash } => {
                let tx_hash = match read_hash(tx_hash) {
                    Ok(hash) => hash,
                    Err(e) => {
                        return Err(e);
                    },
                };
                match self.workbench.get(&tx_hash) {
                    Err(e) => Err(e),
                    Ok(tx) => Ok(Step::Done(Reply::Transaction { hash: tx_hash, transaction: tx })),
                }
            },
            Command::Remove { tx_hash } => {
                let tx_hash = match read_hash(tx_hash) {
                    Ok(hash) => hash,
                    Err(e) => {
                        return Err(e);
                    },
                };
                match self.workbench.remove(&tx_hash) {
                    Err(e) => Err(e),
                    Ok(tx) => Ok(Step::Done(Reply::Transaction { hash: tx_hash, transaction: tx })),
                }
            },
            Command::Verify { tx_hash, max_cost } => {
                let tx_hash = match read_hash(tx_hash) {
                    Ok(hash) => hash,
                    Err(e) => {
                        return Err(e);
                    },
                };
                match self.workbench.get(&tx_hash) {
                    Err(e) => Err(e),
                    Ok(transaction) => Ok(
                        Step::NeedVerdict { tx_hash, transaction, max_cost: *max_cost },
                    ),
                }
            },
            Command::List => {
                match self.workbench.list() {
                    Err(e) => Err(e),
                    Ok(all) => Ok(Step::Done(Reply::Listing(all))),
                }
            },
        }
    }

    /// Takes a command on from `step` with the answer of the remote side.
    pub fn resume(&mut self, step: Step, answer: &Answer) -> (r: Result<Reply, TxError>)
        ensures
            resumed(old(self).state(), step, *answer, final(self).state(), r),
            keyed_by_hash(final(self).state().staged),
    {
        // The call tells what holds of the staged transactions at all times.
        let _ = self.workbench.is_available();
        match step {
            Step::Done(reply) => Ok(reply),
            Step::NeedLocks { tx_hash, out_points } => match answer {
                Answer::Locks(locks) => {
                    match self.workbench.set_witnesses_by_keys(&tx_hash, locks) {
                        Err(e) => Err(e),
                        Ok(tx) => Ok(Reply::Transaction { hash: tx_hash, transaction: tx }),
                    }
                },
                Answer::Verdict(_) => Err(TxError::RemoteUnavailable),
            },
            Step::NeedVerdict { tx_hash, transaction, max_cost } => match answer {
                Answer::Verdict(remote) => {
                    match self.workbench.verify(&tx_hash, max_cost, *remote) {
                        Err(e) => Err(e),
                        Ok(verdict) => Ok(Reply::Verdict(verdict)),
                    }
                },
                Answer::Locks(_) => Err(TxError::RemoteUnavailable),
            },
        }
    }
}

} // verus!
