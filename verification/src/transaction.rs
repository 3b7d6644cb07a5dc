//! Transactions, and the hash the ledger knows them by.

use vstd::prelude::*;
use ckb_types::packed;
use ckb_types::prelude::{Builder, Entity, Pack, Unpack};
use crate::cell::{copy_bytes, models, CellInput, CellInputModel, CellOutput, CellOutputModel};
use crate::hash::Hash256;
use crate::outpoint::{OutPoint, OutPointModel};

verus! {

/// The ledger's own builder of transactions. What it holds is known only
/// by what it was given.
#[verifier::external_type_specification]
#[verifier::external_body]
pub struct ExTransactionBuilder(ckb_types::core::TransactionBuilder);

/// The dependencies that a builder holds, in the order it was given them.
pub uninterp spec fn builder_deps(builder: ckb_types::core::TransactionBuilder) -> Seq<
    OutPointModel,
>;

/// The inputs that a builder holds, in the order it was given them.
pub uninterp spec fn builder_inputs(builder: ckb_types::core::TransactionBuilder) -> Seq<
    CellInputModel,
>;

/// The outputs that a builder holds, in the order it was given them.
pub uninterp spec fn builder_outputs(builder: ckb_types::core::TransactionBuilder) -> Seq<
    CellOutputModel,
>;

/// The hash that the ledger gives a transaction of these dependencies,
/// inputs and outputs.
pub uninterp spec fn ledger_hash(
    deps: Seq<OutPointModel>,
    inputs: Seq<CellInputModel>,
    outputs: Seq<CellOutputModel>,
) -> Seq<u8>;

/// `ckb_types::core::TransactionBuilder::default`: a builder that holds
/// nothing.
#[verifier::external_body]
fn builder_new() -> (builder: ckb_types::core::TransactionBuilder)
    ensures
        builder_deps(builder) == Seq::<OutPointModel>::empty(),
        builder_inputs(builder) == Seq::<CellInputModel>::empty(),
        builder_outputs(builder) == Seq::<CellOutputModel>::empty(),
{
    ckb_types::core::TransactionBuilder::default()
}

/// `ckb_types::core::TransactionBuilder::cell_dep`: the builder with one
/// more dependency behind those it has, and nothing else changed.
#[verifier::external_body]
fn builder_dep(builder: ckb_types::core::TransactionBuilder, dep: &OutPoint) -> (after:
    ckb_types::core::TransactionBuilder)
    ensures
        builder_deps(after) == builder_deps(builder).push(dep@),
        builder_inputs(after) == builder_inputs(builder),
        builder_outputs(after) == builder_outputs(builder),
{
    let out_point = packed::OutPoint::new(dep.tx_hash.bytes.pack(), dep.index);
    builder.cell_dep(packed::CellDep::new_builder().out_point(out_point).build())
}

/// `ckb_types::core::TransactionBuilder::input`: the builder with one more
/// input behind those it has, and nothing else changed.
#[verifier::external_body]
fn builder_input(builder: ckb_types::core::TransactionBuilder, input: &CellInput) -> (after:
    ckb_types::core::TransactionBuilder)
    ensures
        builder_deps(after) == builder_deps(builder),
        builder_inputs(after) == builder_inputs(builder).push(input@),
        builder_outputs(after) == builder_outputs(builder),
{
    let from = &input.previous_output;
    let out_point = packed::OutPoint::new(from.tx_hash.bytes.pack(), from.index);
    builder.input(packed::CellInput::new(out_point, input.since))
}

/// `ckb_types::core::TransactionBuilder::output` and `output_data`: the
/// builder with one more output, and the data of that output, behind those
/// it has, and nothing else changed. The lock is of the hash type `Data`.
#[verifier::external_body]
fn builder_output(builder: ckb_types::core::TransactionBuilder, output: &CellOutput) -> (after:
    ckb_types::core::TransactionBuilder)
    ensures
        builder_deps(after) == builder_deps(builder),
        builder_inputs(after) == builder_inputs(builder),
        builder_outputs(after) == builder_outputs(builder).push(output@),
{
    let lock = packed::Script::new_builder()
        .code_hash(output.lock.code_hash.bytes.pack())
        .args(output.lock.args.pack())
        .build();
    let cell = packed::CellOutput::new_builder().capacity(output.capacity).lock(lock).build();
    builder.output(cell).output_data(output.data.pack())
}

/// `ckb_types::core::TransactionBuilder::build` and `TransactionView::hash`:
/// the hash of the transaction made of what the builder holds. It is the
/// ledger's digest of the dependencies, inputs and outputs, and of nothing
/// else.
#[verifier::external_body]
fn builder_hash(builder: ckb_types::core::TransactionBuilder) -> (hash: [u8; 32])
    ensures
        hash@ == ledger_hash(
            builder_deps(builder),
            builder_inputs(builder),
            builder_outputs(builder),
        ),
{
    builder.build().hash().unpack()
}

/// What unlocks one input; empty as long as nothing does.
pub type Witness = Vec<u8>;

/// A transaction: the cells it depends on, those it consumes, those it
/// creates, and one witness for each cell it consumes.
#[derive(Debug, PartialEq, Eq)]
pub struct Transaction {
    deps: Vec<OutPoint>,
    inputs: Vec<CellInput>,
    outputs: Vec<CellOutput>,
    witnesses: Vec<Witness>,
}

/// What a `Transaction` stands for.
pub struct TransactionModel {
    pub deps: Seq<OutPointModel>,
    pub inputs: Seq<CellInputModel>,
    pub outputs: Seq<CellOutputModel>,
    pub witnesses: Seq<Seq<u8>>,
}

/// The hash of a transaction. Its witnesses have no part in it.
pub open spec fn transaction_hash(tx: TransactionModel) -> Seq<u8> {
    ledger_hash(tx.deps, tx.inputs, tx.outputs)
}

/// As many empty witnesses as there are inputs.
pub open spec fn empty_witnesses(inputs: nat) -> Seq<Seq<u8>> {
    Seq::new(inputs, |i: int| Seq::<u8>::empty())
}

/// The transaction of these parts that nothing has unlocked yet.
pub open spec fn unsigned(
    deps: Seq<OutPointModel>,
    inputs: Seq<CellInputModel>,
    outputs: Seq<CellOutputModel>,
) -> TransactionModel {
    TransactionModel { deps, inputs, outputs, witnesses: empty_witnesses(inputs.len()) }
}

/// `tx` with other witnesses.
pub open spec fn with_witnesses(tx: TransactionModel, witnesses: Seq<Seq<u8>>) -> TransactionModel {
    TransactionModel { witnesses, ..tx }
}

/// Whether a transaction has one witness for each input.
pub open spec fn aligned(tx: TransactionModel) -> bool {
    tx.witnesses.len() == tx.inputs.len()
}

impl View for Transaction {
    type V = TransactionModel;

    closed spec fn view(&self) -> TransactionModel {
        TransactionModel {
            deps: models(self.deps@),
            inputs: models(self.inputs@),
            outputs: models(self.outputs@),
            witnesses: models(self.witnesses@),
        }
    }
}

impl Transaction {
    /// There is one witness for each input.
    #[verifier::type_invariant]
    pub open spec fn one_witness_per_input(self) -> bool {
        aligned(self@)
    }

    /// Puts a transaction together, with an empty witness for each input.
    pub fn assemble(deps: Vec<OutPoint>, inputs: Vec<CellInput>, outputs: Vec<CellOutput>) -> (tx:
        Transaction)
        ensures
            tx@ == unsigned(models(deps@), models(inputs@), models(outputs@)),
    {
        let mut witnesses: Vec<Witness> = Vec::new();
        let mut i: usize = 0;
        while i < inputs.len()
            invariant
                i <= inputs.len(),
                witnesses.len() == i,
                forall|j: int| 0 <= j < i ==> (#[trigger] witnesses@[j])@ == Seq::<u8>::empty(),
            decreases inputs.len() - i,
        {
            witnesses.push(Vec::new());
            i = i + 1;
        }
        assert(models(witnesses@) =~= empty_witnesses(inputs@.len()));
        Transaction { deps, inputs, outputs, witnesses }
    }

    /// Puts a transaction together from all four parts, if there is one
    /// witness for each input.
    pub fn from_parts(
        deps: Vec<OutPoint>,
        inputs: Vec<CellInput>,
        outputs: Vec<CellOutput>,
        witnesses: Vec<Witness>,
    ) -> (r: Option<Transaction>)
        ensures
            r is Some <==> witnesses.len() == inputs.len(),
            r matches Some(tx) ==> tx@ == (TransactionModel {
                deps: models(deps@),
                inputs: models(inputs@),
                outputs: models(outputs@),
                witnesses: models(witnesses@),
            }),
    {
        if witnesses.len() == inputs.len() {
            Some(Transaction { deps, inputs, outputs, witnesses })
        } else {
            None
        }
    }

    /// The cells this transaction depends on.
    pub fn deps(&self) -> (deps: &Vec<OutPoint>)
        ensures
            models(deps@) == self@.deps,
    {
        &self.deps
    }

    /// The cells this transaction consumes.
    pub fn inputs(&self) -> (inputs: &Vec<CellInput>)
        ensures
            models(inputs@) == self@.inputs,
            aligned(self@),
    {
        proof {
            use_type_invariant(self);
        }
        &self.inputs
    }

    /// The cells this transaction creates.
    pub fn outputs(&self) -> (outputs: &Vec<CellOutput>)
        ensures
            models(outputs@) == self@.outputs,
    {
        &self.outputs
    }

    /// The witnesses, one for each input.
    pub fn witnesses(&self) -> (witnesses: &Vec<Witness>)
        ensures
            models(witnesses@) == self@.witnesses,
            aligned(self@),
    {
        proof {
            use_type_invariant(self);
        }
        &self.witnesses
    }

    /// The hash by which the ledger knows this transaction.
    pub fn hash(&self) -> (hash: Hash256)
        ensures
            hash@ == transaction_hash(self@),
    {
        let mut builder = builder_new();
        let mut i: usize = 0;
        while i < self.deps.len()
            invariant
                i <= self.deps.len(),
                builder_deps(builder) == models(self.deps@).take(i as int),
                builder_inputs(builder) == Seq::<CellInputModel>::empty(),
                builder_outputs(builder) == Seq::<CellOutputModel>::empty(),
            decreases self.deps.len() - i,
        {
            builder = builder_dep(builder, &self.deps[i]);
            i = i + 1;
        }
        let mut j: usize = 0;
        while j < self.inputs.len()
            invariant
                j <= self.inputs.len(),
                builder_deps(builder) == models(self.deps@),
                builder_inputs(builder) == models(self.inputs@).take(j as int),
                builder_outputs(builder) == Seq::<CellOutputModel>::empty(),
            decreases self.inputs.len() - j,
        {
            builder = builder_input(builder, &self.inputs[j]);
            j = j + 1;
        }
        let mut k: usize = 0;
        while k < self.outputs.len()
            invariant
                k <= self.outputs.len(),
                builder_deps(builder) == models(self.deps@),
                builder_inputs(builder) == models(self.inputs@),
                builder_outputs(builder) == models(self.outputs@).take(k as int),
            decreases self.outputs.len() - k,
        {
            builder = builder_output(builder, &self.outputs[k]);
            k = k + 1;
        }
        assert(models(self.outputs@).take(k as int) =~= models(self.outputs@));
        Hash256 { bytes: builder_hash(builder) }
    }

    /// This transaction with `witnesses` in place of its own, if there is
    /// one for each input.
    pub fn replace_witnesses(self, witnesses: Vec<Witness>) -> (r: Option<Transaction>)
        ensures
            r is Some <==> witnesses.len() == self@.inputs.len(),
            r matches Some(tx) ==> tx@ == with_witnesses(self@, models(witnesses@)),
    {
        if witnesses.len() == self.inputs.len() {
            Some(
                Transaction {
                    deps: self.deps,
                    inputs: self.inputs,
                    outputs: self.outputs,
                    witnesses,
                },
            )
        } else {
            None
        }
    }

    /// A copy of this transaction.
    pub fn copy(&self) -> (copy: Transaction)
        ensures
            copy@ == self@,
    {
        proof {
            use_type_invariant(self);
        }
        let mut deps: Vec<OutPoint> = Vec::new();
        let mut i: usize = 0;
        while i < self.deps.len()
            invariant
                i <= self.deps.len(),
                deps.len() == i,
                models(deps@) == models(self.deps@).take(i as int),
            decreases self.deps.len() - i,
        {
            deps.push(self.deps[i]);
            i = i + 1;
        }
        assert(models(self.deps@).take(i as int) =~= models(self.deps@));
        let mut inputs: Vec<CellInput> = Vec::new();
        let mut i: usize = 0;
        while i < self.inputs.len()
            invariant
                i <= self.inputs.len(),
                inputs.len() == i,
                models(inputs@) == models(self.inputs@).take(i as int),
            decreases self.inputs.len() - i,
        {
            inputs.push(self.inputs[i]);
            i = i + 1;
        }
        assert(models(self.inputs@).take(i as int) =~= models(self.inputs@));
        let mut outputs: Vec<CellOutput> = Vec::new();
        let mut i: usize = 0;
        while i < self.outputs.len()
            invariant
                i <= self.outputs.len(),
                outputs.len() == i,
                models(outputs@) == models(self.outputs@).take(i as int),
            decreases self.outputs.len() - i,
        {
            outputs.push(self.outputs[i].copy());
            i = i + 1;
        }
        assert(models(self.outputs@).take(i as int) =~= models(self.outputs@));
        let mut witnesses: Vec<Witness> = Vec::new();
        let mut i: usize = 0;
        while i < self.witnesses.len()
            invariant
                i <= self.witnesses.len(),
                witnesses.len() == i,
                models(witnesses@) == models(self.witnesses@).take(i as int),
            decreases self.witnesses.len() - i,
        {
            witnesses.push(copy_bytes(&self.witnesses[i]));
            i = i + 1;
        }
        assert(models(self.witnesses@).take(i as int) =~= models(self.witnesses@));
        Transaction { deps, inputs, outputs, witnesses }
    }
}

} // verus!
