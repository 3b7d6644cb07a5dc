//! What the remote verifier says of a transaction, and what to make of it.

use vstd::prelude::*;
use crate::error::TxError;

verus! {

/// The answer of the remote verifier.
#[derive(Clone, Copy, Debug, PartialEq, Eq, Structural)]
pub enum RemoteAnswer {
    /// The verifier judged the transaction and counted what it costs to run.
    Judged { valid: bool, cost: u64 },
    /// The verifier could not be reached.
    Unreachable,
}

/// A transaction found valid, and what it costs to run.
#[derive(Clone, Copy, Debug, PartialEq, Eq, Structural)]
pub struct Verdict {
    pub valid: bool,
    pub cost: u64,
}

/// What an answer comes to under a budget: the verdict of a valid
/// transaction within the budget, and a failure else.
pub open spec fn judged(answer: RemoteAnswer, max_cost: u64) -> Result<Verdict, TxError> {
    match answer {
        RemoteAnswer::Unreachable => Err(TxError::RemoteUnavailable),
        RemoteAnswer::Judged { valid, cost } => if !valid {
            Err(TxError::RemoteRejected)
        } else if cost > max_cost {
            Err(TxError::BudgetExceeded)
        } else {
            Ok(Verdict { valid: true, cost })
        },
    }
}

/// Holds an answer against a budget.
pub fn judge(answer: RemoteAnswer, max_cost: u64) -> (r: Result<Verdict, TxError>)
    ensures
        r == judged(answer, max_cost),
{
    match answer {
        RemoteAnswer::Unreachable => Err(TxError::RemoteUnavailable),
        RemoteAnswer::Judged { valid, cost } => if !valid {
            Err(TxError::RemoteRejected)
        } else if cost > max_cost {
            Err(TxError::BudgetExceeded)
        } else {
            Ok(Verdict { valid: true, cost })
        },
    }
}

} // verus!
