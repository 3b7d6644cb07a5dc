//! The failures of the workbench.

use vstd::prelude::*;
use crate::decimal::{decimal, write_decimal};

verus! {

/// Which list of names a reference was taken from.
#[derive(Clone, Copy, Debug, PartialEq, Eq, Structural)]
pub enum NameList {
    /// The names of the cells to consume.
    Inputs,
    /// The names of the cells to create.
    Outputs,
}

/// Every way an operation of the workbench can fail. A failure that comes
/// from one entry of a list carries the position of that entry.
#[derive(Clone, Copy, Debug, PartialEq, Eq, Structural)]
pub enum TxError {
    /// A dependency token does not consist of exactly two parts.
    MalformedDependency { at: usize },
    /// A hash is not 64 hexadecimal digits after its optional prefix.
    InvalidHash { at: usize },
    /// An output index is not a decimal number that fits 32 bits.
    InvalidIndex { at: usize },
    /// A name given to an assembly is not in its registry.
    UnknownReference { list: NameList, at: usize },
    /// Nothing is recorded under the name or hash asked for.
    NotFound,
    /// A record exists but could not be read as what it should hold.
    CorruptRecord,
    /// The store could not be opened.
    StoreUnavailable,
    /// The remote verifier could not be reached.
    RemoteUnavailable,
    /// The remote verifier found the transaction invalid.
    RemoteRejected,
    /// The transaction costs more than the budget allows.
    BudgetExceeded,
}

/// What a failure says of itself.
pub open spec fn message_of(e: TxError) -> Seq<char> {
    match e {
        TxError::MalformedDependency { at } => "malformed dependency at position "@ + decimal(
            at as nat,
        ),
        TxError::InvalidHash { at } => "invalid hash at position "@ + decimal(at as nat),
        TxError::InvalidIndex { at } => "invalid index at position "@ + decimal(at as nat),
        TxError::UnknownReference { list: NameList::Inputs, at } => "unknown input at position "@
            + decimal(at as nat),
        TxError::UnknownReference { list: NameList::Outputs, at } => "unknown output at position "@
            + decimal(at as nat),
        TxError::NotFound => "not found"@,
        TxError::CorruptRecord => "corrupt record"@,
        TxError::StoreUnavailable => "store unavailable"@,
        TxError::RemoteUnavailable => "remote verifier unavailable"@,
        TxError::RemoteRejected => "rejected by the remote verifier"@,
        TxError::BudgetExceeded => "budget exceeded"@,
    }
}

impl TxError {
    /// One line that says what failed, and at which entry of its list.
    pub fn message(&self) -> (text: String)
        ensures
            text@ == message_of(*self),
    {
        match *self {
            TxError::MalformedDependency { at } => {
                let mut text = "malformed dependency at position ".to_owned();
                write_decimal(&mut text, at as u64);
                text
            },
            TxError::InvalidHash { at } => {
                let mut text = "invalid hash at position ".to_owned();
                write_decimal(&mut text, at as u64);
                text
            },
            TxError::InvalidIndex { at } => {
                let mut text = "invalid index at position ".to_owned();
                write_decimal(&mut text, at as u64);
                text
            },
            TxError::UnknownReference { list, at } => {
                let mut text = match list {
                    NameList::Inputs => "unknown input at position ".to_owned(),
                    NameList::Outputs => "unknown output at position ".to_owned(),
                };
                write_decimal(&mut text, at as u64);
                text
            },
            TxError::NotFound => "not found".to_owned(),
            TxError::CorruptRecord => "corrupt record".to_owned(),
            TxError::StoreUnavailable => "store unavailable".to_owned(),
            TxError::RemoteUnavailable => "remote verifier unavailable".to_owned(),
            TxError::RemoteRejected => "rejected by the remote verifier".to_owned(),
            TxError::BudgetExceeded => "budget exceeded".to_owned(),
        }
    }
}

/// Whether `r` is the failure `e`.
pub open spec fn fails<T>(r: Result<T, TxError>, e: TxError) -> bool {
    r matches Err(failure) && failure == e
}

} // verus!
