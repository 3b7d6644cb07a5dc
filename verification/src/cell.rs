//! Cells: what a transaction consumes and what it creates.

use vstd::prelude::*;
use crate::hash::Hash256;
use crate::outpoint::{OutPoint, OutPointModel};

verus! {

/// The views of the items of `items`, in order.
pub open spec fn models<T: View>(items: Seq<T>) -> Seq<T::V> {
    Seq::new(items.len(), |i: int| items[i]@)
}

/// A copy of `bytes`.
pub fn copy_bytes(bytes: &Vec<u8>) -> (copy: Vec<u8>)
    ensures
        copy@ == bytes@,
{
    let mut copy: Vec<u8> = Vec::new();
    let mut i: usize = 0;
    while i < bytes.len()
        invariant
            i <= bytes.len(),
            copy@ == bytes@.take(i as int),
        decreases bytes.len() - i,
    {
        copy.push(bytes[i]);
        i = i + 1;
    }
    copy
}

/// Whether two byte strings are the same.
pub fn same_bytes(a: &Vec<u8>, b: &Vec<u8>) -> (r: bool)
    ensures
        r == (a@ == b@),
{
    if a.len() != b.len() {
        return false;
    }
    let mut i: usize = 0;
    while i < a.len()
        invariant
            i <= a.len(),
            a.len() == b.len(),
            forall|j: int| 0 <= j < i ==> a@[j] == b@[j],
        decreases a.len() - i,
    {
        if a[i] != b[i] {
            return false;
        }
        i = i + 1;
    }
    assert(a@ =~= b@);
    true
}

/// The condition under which a cell may be consumed: the code that decides,
/// and the argument it decides on.
#[derive(Debug, PartialEq, Eq)]
pub struct Script {
    pub code_hash: Hash256,
    pub args: Vec<u8>,
}

/// What a `Script` stands for.
pub struct ScriptModel {
    pub code_hash: Seq<u8>,
    pub args: Seq<u8>,
}

impl View for Script {
    type V = ScriptModel;

    open spec fn view(&self) -> ScriptModel {
        ScriptModel { code_hash: self.code_hash@, args: self.args@ }
    }
}

impl Script {
    /// A copy of this lock.
    pub fn copy(&self) -> (copy: Script)
        ensures
            copy@ == self@,
    {
        Script { code_hash: self.code_hash, args: copy_bytes(&self.args) }
    }
}

/// A cell to consume: which one, and from when on it may be consumed.
#[derive(Clone, Copy, Debug, PartialEq, Eq)]
pub struct CellInput {
    pub previous_output: OutPoint,
    pub since: u64,
}

/// What a `CellInput` stands for.
pub struct CellInputModel {
    pub previous_output: OutPointModel,
    pub since: u64,
}

impl View for CellInput {
    type V = CellInputModel;

    open spec fn view(&self) -> CellInputModel {
        CellInputModel { previous_output: self.previous_output@, since: self.since }
    }
}

/// A cell to create: its value, the lock that guards it and what it holds.
#[derive(Debug, PartialEq, Eq)]
pub struct CellOutput {
    pub capacity: u64,
    pub lock: Script,
    pub data: Vec<u8>,
}

/// What a `CellOutput` stands for.
pub struct CellOutputModel {
    pub capacity: u64,
    pub lock: ScriptModel,
    pub data: Seq<u8>,
}

impl View for CellOutput {
    type V = CellOutputModel;

    open spec fn view(&self) -> CellOutputModel {
        CellOutputModel { capacity: self.capacity, lock: self.lock@, data: self.data@ }
    }
}

impl CellOutput {
    /// A copy of this cell.
    pub fn copy(&self) -> (copy: CellOutput)
        ensures
            copy@ == self@,
    {
        CellOutput {
            capacity: self.capacity,
            lock: self.lock.copy(),
            data: copy_bytes(&self.data),
        }
    }
}

} // verus!
