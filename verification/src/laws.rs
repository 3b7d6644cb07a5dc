//! What holds of tokens and of the workbench, whatever they hold.

use vstd::prelude::*;
use crate::assembly::{all_ok, reference_results};
use crate::cell::ScriptModel;
use crate::command::{processed, resumed, Answer, Command, Reply, Step};
use crate::error::{fails, TxError};
use crate::hash::parse_hash;
use crate::hex::encode_hex;
use crate::outpoint::{
    dash_position, format_dependency, format_index, lemma_dash_position,
    lemma_parse_format_index, parse_dependency, OutPointModel, TokenError,
};
use crate::store::keyed_by_hash;
use crate::transaction::{aligned, transaction_hash, with_witnesses, TransactionModel};
use crate::workbench::{
    after_add, after_remove, after_signing, assembled, fetched, signed, WorkbenchModel,
};

verus! {

/// Every `OutPoint` is read back from the token that writes it.
pub proof fn law_written_token_is_read_back(out_point: OutPointModel)
    requires
        out_point.tx_hash.len() == 32,
    ensures
        parse_dependency(format_dependency(out_point)) == Ok::<OutPointModel, TokenError>(
            out_point,
        ),
{
    let hex = encode_hex(out_point.tx_hash);
    let digits = format_index(out_point.index);
    let token = format_dependency(out_point);
    crate::hex::lemma_encode_is_hex(out_point.tx_hash);
    crate::decimal::lemma_decimal(out_point.index as nat);
    assert forall|i: int| 0 <= i < token.len() && i != 64 implies token[i] != '-' by {
        if i < 64 {
            assert(token[i] == hex[i]);
            assert(crate::hex::is_hex_digit(hex[i]));
        } else {
            assert(token[i] == digits[i - 65]);
            assert(crate::decimal::is_digit(digits[i - 65]));
        }
    }
    assert(token[64] == '-');
    lemma_dash_position(token, 64);
    assert(token.take(64) =~= hex);
    assert(token.skip(65) =~= digits);
    crate::hash::lemma_parse_hash_of_hex(out_point.tx_hash);
    lemma_parse_format_index(out_point.index);
}

/// Reading a token and writing what was read gives a token for the same
/// `OutPoint`.
pub proof fn law_dependency_round_trip(token: Seq<char>)
    requires
        parse_dependency(token) is Ok,
    ensures
        parse_dependency(format_dependency(parse_dependency(token)->Ok_0)) == parse_dependency(
            token,
        ),
{
    let at = dash_position(token);
    let out_point = parse_dependency(token)->Ok_0;
    assert(parse_hash(token.take(at)) == Some(out_point.tx_hash));
    assert(out_point.tx_hash.len() == 32);
    law_written_token_is_read_back(out_point);
}

/// An assembly that names a cell which is not known fails, and leaves the
/// workbench as it was: nothing is staged for it.
pub proof fn law_add_is_all_or_nothing(
    wb: WorkbenchModel,
    deps: Seq<Seq<char>>,
    inputs: Seq<Seq<char>>,
    outputs: Seq<Seq<char>>,
)
    requires
        (exists|i: int| 0 <= i < inputs.len() && !wb.inputs.contains_key(#[trigger] inputs[i])) || (
        exists|i: int| 0 <= i < outputs.len() && !wb.cells.contains_key(#[trigger] outputs[i])),
    ensures
        assembled(wb, deps, inputs, outputs) is Err,
        after_add(wb, deps, inputs, outputs) == wb,
{
    if exists|i: int| 0 <= i < inputs.len() && !wb.inputs.contains_key(#[trigger] inputs[i]) {
        let i = choose|i: int| 0 <= i < inputs.len() && !wb.inputs.contains_key(#[trigger] inputs[i]);
        let results = reference_results(wb.inputs, inputs);
        assert(results[i] is Err);
        assert(!all_ok(results));
    } else {
        let i = choose|i: int|
            0 <= i < outputs.len() && !wb.cells.contains_key(#[trigger] outputs[i]);
        let results = reference_results(wb.cells, outputs);
        assert(results[i] is Err);
        assert(!all_ok(results));
    }
}

/// Whatever fails in an assembly, the workbench stays as it was.
pub proof fn law_failed_add_changes_nothing(
    wb: WorkbenchModel,
    deps: Seq<Seq<char>>,
    inputs: Seq<Seq<char>>,
    outputs: Seq<Seq<char>>,
)
    requires
        assembled(wb, deps, inputs, outputs) is Err,
    ensures
        after_add(wb, deps, inputs, outputs) == wb,
{
}

/// An assembled transaction is found under its hash afterwards, as it was
/// assembled.
pub proof fn law_added_is_shown(
    wb: WorkbenchModel,
    deps: Seq<Seq<char>>,
    inputs: Seq<Seq<char>>,
    outputs: Seq<Seq<char>>,
)
    requires
        assembled(wb, deps, inputs, outputs) is Ok,
    ensures
        fetched(
            after_add(wb, deps, inputs, outputs),
            transaction_hash(assembled(wb, deps, inputs, outputs)->Ok_0),
        ) == assembled(wb, deps, inputs, outputs),
{
}

/// A transaction has one witness for each input, after it is assembled
/// and after it is signed.
pub proof fn law_one_witness_per_input(
    wb: WorkbenchModel,
    deps: Seq<Seq<char>>,
    inputs: Seq<Seq<char>>,
    outputs: Seq<Seq<char>>,
    hash: Seq<u8>,
    locks: Seq<Option<ScriptModel>>,
)
    ensures
        assembled(wb, deps, inputs, outputs) matches Ok(tx) ==> aligned(tx),
        signed(wb, hash, locks) matches Ok(tx) ==> aligned(tx),
{
}

/// Signing leaves the hash of a transaction as it is: the signed
/// transaction has the hash of the one it was made from, which is the hash
/// it is staged under.
pub proof fn law_signing_keeps_hash(
    wb: WorkbenchModel,
    hash: Seq<u8>,
    locks: Seq<Option<ScriptModel>>,
)
    requires
        keyed_by_hash(wb.staged),
        signed(wb, hash, locks) is Ok,
    ensures
        transaction_hash(signed(wb, hash, locks)->Ok_0) == transaction_hash(wb.staged[hash]),
        transaction_hash(signed(wb, hash, locks)->Ok_0) == hash,
        fetched(after_signing(wb, hash, locks), hash) == signed(wb, hash, locks),
        keyed_by_hash(after_signing(wb, hash, locks).staged),
{
    let now = signed(wb, hash, locks)->Ok_0;
    let after = after_signing(wb, hash, locks).staged;
    assert(wb.staged.contains_key(hash));
    assert forall|h: Seq<u8>| #[trigger] after.contains_key(h) implies transaction_hash(after[h])
        == h && aligned(after[h]) by {
        if h != hash {
            assert(wb.staged.contains_key(h));
        }
    }
}

/// Signing again takes the place of what signing did before: the second
/// result is what signing the first transaction gives.
pub proof fn law_signing_replaces(
    wb: WorkbenchModel,
    hash: Seq<u8>,
    first: Seq<Option<ScriptModel>>,
    second: Seq<Option<ScriptModel>>,
)
    requires
        signed(wb, hash, first) is Ok,
        signed(wb, hash, second) is Ok,
    ensures
        signed(after_signing(wb, hash, first), hash, second) == signed(wb, hash, second),
{
}

/// After a transaction is taken out, nothing is found under its hash;
/// the other transactions are found as before.
pub proof fn law_removed_is_not_found(wb: WorkbenchModel, hash: Seq<u8>, other: Seq<u8>)
    requires
        wb.available,
    ensures
        fetched(after_remove(wb, hash), hash) == Err::<TransactionModel, TxError>(
            TxError::NotFound,
        ),
        other != hash ==> fetched(after_remove(wb, hash), other) == fetched(wb, other),
{
}

/// The witnesses of a transaction have no part in its hash.
pub proof fn law_hash_ignores_witnesses(tx: TransactionModel, witnesses: Seq<Seq<u8>>)
    ensures
        transaction_hash(with_witnesses(tx, witnesses)) == transaction_hash(tx),
{
}

/// A command that fails leaves the workbench as it was.
pub proof fn law_failed_command_changes_nothing(
    before: WorkbenchModel,
    command: Command,
    after: WorkbenchModel,
    r: Result<Step, TxError>,
)
    requires
        processed(before, command, after, r),
        r is Err,
    ensures
        after == before,
{
}

/// An answer on which a command fails leaves the workbench as it was.
pub proof fn law_failed_answer_changes_nothing(
    before: WorkbenchModel,
    step: Step,
    answer: Answer,
    after: WorkbenchModel,
    r: Result<Reply, TxError>,
)
    requires
        resumed(before, step, answer, after, r),
        r is Err,
    ensures
        after == before,
{
}

/// After the command to take a transaction out has worked, the command to
/// show it fails: nothing is found under its hash.
pub proof fn law_removed_is_not_shown(
    before: WorkbenchModel,
    tx_hash: String,
    after: WorkbenchModel,
    removed: Result<Step, TxError>,
    last: WorkbenchModel,
    shown: Result<Step, TxError>,
)
    requires
        processed(before, Command::Remove { tx_hash }, after, removed),
        removed is Ok,
        processed(after, Command::Show { tx_hash }, last, shown),
    ensures
        fails(shown, TxError::NotFound),
        last == after,
{
}

} // verus!
