use tx_workbench::cell::{CellInput, CellOutput, Script};
use tx_workbench::error::{NameList, TxError};
use tx_workbench::hash::Hash256;
use tx_workbench::key::Key;
use tx_workbench::outpoint::OutPoint;
use tx_workbench::registry::{Record, Registry};
use tx_workbench::transaction::Transaction;
use tx_workbench::verdict::{judge, RemoteAnswer, Verdict};
use tx_workbench::workbench::Workbench;

fn names(list: &[&str]) -> Vec<String> {
    list.iter().map(|name| name.to_string()).collect()
}

fn input(fill: u8, index: u32) -> CellInput {
    CellInput { previous_output: OutPoint { tx_hash: Hash256 { bytes: [fill; 32] }, index }, since: 0 }
}

fn output(capacity: u64, args: &[u8]) -> CellOutput {
    CellOutput {
        capacity,
        lock: Script { code_hash: Hash256 { bytes: [9; 32] }, args: args.to_vec() },
        data: vec![],
    }
}

fn lock_for(key: &Key) -> Script {
    Script { code_hash: Hash256 { bytes: [9; 32] }, args: key.identity().clone() }
}

fn bench() -> Workbench {
    let mut wb = Workbench::new();
    wb.put_input("in1".to_string(), Record::Intact(input(1, 0)));
    wb.put_input("in2".to_string(), Record::Intact(input(2, 3)));
    wb.put_input("torn".to_string(), Record::Corrupt);
    wb.put_cell("out1".to_string(), Record::Intact(output(100, &[1])));
    wb.put_cell("out2".to_string(), Record::Intact(output(200, &[2])));
    wb.put_cell("torn".to_string(), Record::Corrupt);
    wb
}

fn dep_a() -> String {
    format!("{}-0", "a".repeat(64))
}

#[test]
fn registry_gives_what_was_put() {
    let mut registry: Registry<CellInput> = Registry::new();
    assert_eq!(registry.get(&"in1".to_string()), Err(TxError::NotFound));
    registry.put("in1".to_string(), Record::Intact(input(1, 0)));
    registry.put("torn".to_string(), Record::Corrupt);
    assert_eq!(registry.get(&"in1".to_string()), Ok(&input(1, 0)));
    assert_eq!(registry.get(&"in2".to_string()), Err(TxError::NotFound));
    assert_eq!(registry.get(&"torn".to_string()), Err(TxError::CorruptRecord));
    assert_eq!(registry.get(&"".to_string()), Err(TxError::NotFound));
}

#[test]
fn registry_keeps_the_last_record_under_a_name() {
    let mut registry: Registry<CellInput> = Registry::new();
    registry.put("in1".to_string(), Record::Intact(input(1, 0)));
    registry.put("in1".to_string(), Record::Intact(input(5, 5)));
    assert_eq!(registry.get(&"in1".to_string()), Ok(&input(5, 5)));
    registry.put("in1".to_string(), Record::Corrupt);
    assert_eq!(registry.get(&"in1".to_string()), Err(TxError::CorruptRecord));
}

#[test]
fn named_cells_are_looked_up() {
    let wb = bench();
    assert_eq!(wb.input(&"in2".to_string()), Ok(input(2, 3)));
    assert_eq!(wb.cell(&"out1".to_string()), Ok(&output(100, &[1])));
    assert_eq!(wb.input(&"out1".to_string()), Err(TxError::NotFound));
    assert_eq!(wb.cell(&"in1".to_string()), Err(TxError::NotFound));
    assert_eq!(wb.input(&"torn".to_string()), Err(TxError::CorruptRecord));
    assert_eq!(wb.cell(&"torn".to_string()), Err(TxError::CorruptRecord));
}

#[test]
fn add_stages_an_unsigned_transaction_that_show_gives_back() {
    let mut wb = bench();
    let tx = wb.add(&names(&[&dep_a()]), &names(&["in1"]), &names(&["out1"])).unwrap();
    assert_eq!(tx.deps(), &vec![OutPoint { tx_hash: Hash256 { bytes: [0xaa; 32] }, index: 0 }]);
    assert_eq!(tx.inputs(), &vec![input(1, 0)]);
    assert_eq!(tx.outputs(), &vec![output(100, &[1])]);
    assert_eq!(tx.witnesses(), &vec![Vec::<u8>::new()]);
    assert_eq!(wb.get(&tx.hash()), Ok(tx.copy()));
    assert_eq!(wb.list().unwrap().len(), 1);
}

#[test]
fn add_keeps_the_order_of_its_lists() {
    let mut wb = bench();
    let second = format!("0X{}-17", "B".repeat(64));
    let tx = wb
        .add(&names(&[&dep_a(), &second]), &names(&["in2", "in1", "in2"]), &names(&["out2", "out1"]))
        .unwrap();
    assert_eq!(
        tx.deps(),
        &vec![
            OutPoint { tx_hash: Hash256 { bytes: [0xaa; 32] }, index: 0 },
            OutPoint { tx_hash: Hash256 { bytes: [0xbb; 32] }, index: 17 }
        ]
    );
    assert_eq!(tx.inputs(), &vec![input(2, 3), input(1, 0), input(2, 3)]);
    assert_eq!(tx.outputs(), &vec![output(200, &[2]), output(100, &[1])]);
    assert_eq!(tx.witnesses().len(), 3);
    assert!(tx.witnesses().iter().all(|witness| witness.is_empty()));
}

#[test]
fn add_of_nothing_stages_the_empty_transaction() {
    let mut wb = bench();
    let tx = wb.add(&vec![], &vec![], &vec![]).unwrap();
    assert_eq!(tx, Transaction::assemble(vec![], vec![], vec![]));
    assert_eq!(wb.get(&tx.hash()), Ok(tx));
}

#[test]
fn add_with_invalid_hash_fails_and_stages_nothing() {
    let mut wb = bench();
    assert_eq!(
        wb.add(&names(&["zz-0"]), &names(&["in1"]), &names(&["out1"])),
        Err(TxError::InvalidHash { at: 0 })
    );
    assert_eq!(wb.list(), Ok(vec![]));
}

#[test]
fn add_fails_on_the_first_bad_dependency() {
    let mut wb = bench();
    let bad_index = format!("{}-x", "a".repeat(64));
    assert_eq!(
        wb.add(&names(&[&dep_a(), "nodash", "zz-0"]), &vec![], &vec![]),
        Err(TxError::MalformedDependency { at: 1 })
    );
    assert_eq!(
        wb.add(&names(&[&dep_a(), &dep_a(), &bad_index, "zz-0"]), &vec![], &vec![]),
        Err(TxError::InvalidIndex { at: 2 })
    );
    assert_eq!(
        wb.add(&names(&[&dep_a(), "zz-0", "a-b-c"]), &vec![], &vec![]),
        Err(TxError::InvalidHash { at: 1 })
    );
    assert_eq!(wb.list(), Ok(vec![]));
}

#[test]
fn add_reads_dependencies_before_it_looks_names_up() {
    let mut wb = bench();
    assert_eq!(
        wb.add(&names(&["zz-0"]), &names(&["nobody"]), &names(&["nothing"])),
        Err(TxError::InvalidHash { at: 0 })
    );
    let mut closed = Workbench::unavailable();
    assert_eq!(closed.add(&names(&["zz-0"]), &vec![], &vec![]), Err(TxError::InvalidHash { at: 0 }));
    assert_eq!(closed.add(&names(&[&dep_a()]), &vec![], &vec![]), Err(TxError::StoreUnavailable));
}

#[test]
fn add_with_unknown_name_fails_and_stages_nothing() {
    let mut wb = bench();
    let before = wb.add(&names(&[&dep_a()]), &names(&["in1"]), &names(&["out1"])).unwrap();
    assert_eq!(
        wb.add(&names(&[&dep_a()]), &names(&["in1", "nobody", "in2"]), &names(&["out1"])),
        Err(TxError::UnknownReference { list: NameList::Inputs, at: 1 })
    );
    assert_eq!(
        wb.add(&names(&[&dep_a()]), &names(&["in1", "in2"]), &names(&["nothing", "out1"])),
        Err(TxError::UnknownReference { list: NameList::Outputs, at: 0 })
    );
    assert_eq!(
        wb.add(&vec![], &names(&["nobody"]), &names(&["nothing"])),
        Err(TxError::UnknownReference { list: NameList::Inputs, at: 0 })
    );
    let would_be = Transaction::assemble(vec![], vec![input(1, 0), input(2, 3)], vec![]);
    assert_eq!(wb.get(&would_be.hash()), Err(TxError::NotFound));
    let all = wb.list().unwrap();
    assert_eq!(all.len(), 1);
    assert_eq!(all[0].0, before);
}

#[test]
fn add_with_corrupt_record_fails() {
    let mut wb = bench();
    assert_eq!(
        wb.add(&vec![], &names(&["in1", "torn"]), &names(&["nothing"])),
        Err(TxError::CorruptRecord)
    );
    assert_eq!(wb.add(&vec![], &names(&["in1"]), &names(&["out1", "torn"])), Err(TxError::CorruptRecord));
    assert_eq!(
        wb.add(&vec![], &names(&["nobody", "torn"]), &vec![]),
        Err(TxError::UnknownReference { list: NameList::Inputs, at: 0 })
    );
    assert_eq!(wb.list(), Ok(vec![]));
}

#[test]
fn add_of_the_same_content_keeps_one_record() {
    let mut wb = bench();
    let first = wb.add(&names(&[&dep_a()]), &names(&["in1"]), &names(&["out1"])).unwrap();
    let again = wb
        .add(&names(&[&format!("0x{}-+0", "A".repeat(64))]), &names(&["in1"]), &names(&["out1"]))
        .unwrap();
    assert_eq!(first, again);
    assert_eq!(wb.list().unwrap().len(), 1);
}

#[test]
fn get_of_unstaged_hash_is_not_found() {
    let wb = bench();
    assert_eq!(wb.get(&Hash256 { bytes: [0; 32] }), Err(TxError::NotFound));
}

#[test]
fn remove_gives_the_transaction_and_get_fails_afterwards() {
    let mut wb = bench();
    let tx = wb.add(&names(&[&dep_a()]), &names(&["in1"]), &names(&["out1"])).unwrap();
    let other = wb.add(&vec![], &names(&["in2"]), &names(&["out2"])).unwrap();
    let hash = tx.hash();
    assert_eq!(wb.remove(&hash), Ok(tx));
    assert_eq!(wb.get(&hash), Err(TxError::NotFound));
    assert_eq!(wb.remove(&hash), Err(TxError::NotFound));
    assert_eq!(wb.get(&other.hash()), Ok(other.copy()));
    assert_eq!(wb.list(), Ok(vec![(other.copy(), other.hash())]));
}

#[test]
fn list_gives_every_transaction_with_its_hash() {
    let mut wb = bench();
    let one = wb.add(&names(&[&dep_a()]), &names(&["in1"]), &names(&["out1"])).unwrap();
    let two = wb.add(&vec![], &names(&["in2"]), &names(&["out2"])).unwrap();
    let three = wb.add(&vec![], &names(&["in1", "in2"]), &vec![]).unwrap();
    let all = wb.list().unwrap();
    assert_eq!(all.len(), 3);
    for (tx, hash) in &all {
        assert_eq!(&tx.hash(), hash);
        assert_eq!(wb.get(hash).as_ref(), Ok(tx));
    }
    for tx in [&one, &two, &three] {
        assert_eq!(all.iter().filter(|(listed, _)| listed == tx).count(), 1);
    }
}

#[test]
fn list_of_an_empty_workbench_is_empty() {
    assert_eq!(Workbench::new().list(), Ok(vec![]));
}

#[test]
fn restore_stages_a_transaction_with_its_witnesses() {
    let mut wb = Workbench::new();
    let tx = Transaction::from_parts(vec![], vec![input(1, 0)], vec![], vec![vec![5, 5]]).unwrap();
    let hash = wb.restore(tx.copy());
    assert_eq!(hash, tx.hash());
    assert_eq!(wb.get(&hash), Ok(tx));
}

#[test]
fn keys_are_listed_in_the_order_of_their_names() {
    let mut wb = Workbench::new();
    wb.put_key("b".to_string(), Key::new([2; 32]).unwrap());
    wb.put_key("a".to_string(), Key::new([1; 32]).unwrap());
    wb.put_key("b".to_string(), Key::new([3; 32]).unwrap());
    let listed: Vec<Vec<u8>> = wb.keys().unwrap().iter().map(|key| key.identity().clone()).collect();
    let three = Key::new([3; 32]).unwrap();
    let one = Key::new([1; 32]).unwrap();
    assert_eq!(listed, vec![three.identity().clone(), one.identity().clone()]);
    assert!(Workbench::new().keys().unwrap().is_empty());
}

#[test]
fn key_is_looked_up_by_its_name() {
    let mut wb = Workbench::new();
    let two = Key::new([2; 32]).unwrap();
    wb.put_key("a".to_string(), Key::new([1; 32]).unwrap());
    wb.put_key("b".to_string(), two.copy());
    assert_eq!(wb.key(&"b".to_string()).ok().map(|key| key.identity().clone()), Some(two.identity().clone()));
    assert!(matches!(wb.key(&"c".to_string()), Err(TxError::NotFound)));
    assert!(matches!(Workbench::unavailable().key(&"a".to_string()), Err(TxError::StoreUnavailable)));
}

#[test]
fn signing_fills_the_witness_of_the_input_that_a_key_unlocks() {
    let mut wb = bench();
    let key = Key::new([1; 32]).unwrap();
    let stranger = Key::new([2; 32]).unwrap();
    wb.put_key("mine".to_string(), key.copy());
    let tx = wb.add(&names(&[&dep_a()]), &names(&["in1", "in2"]), &names(&["out1"])).unwrap();
    let hash = tx.hash();
    let locks = vec![Some(lock_for(&stranger)), Some(lock_for(&key))];
    let signed = wb.set_witnesses_by_keys(&hash, &locks).unwrap();
    assert_eq!(signed.witnesses(), &vec![vec![], key.sign(&hash)]);
    assert_eq!(signed.witnesses()[1].len(), 65);
    assert_eq!(signed.deps(), tx.deps());
    assert_eq!(signed.inputs(), tx.inputs());
    assert_eq!(signed.outputs(), tx.outputs());
    assert_eq!(signed.hash(), hash);
    assert_eq!(wb.get(&hash), Ok(signed));
    assert_eq!(wb.list().unwrap().len(), 1);
}

#[test]
fn signing_takes_the_first_listed_key_that_unlocks() {
    let mut wb = bench();
    let key = Key::new([1; 32]).unwrap();
    let other = Key::new([2; 32]).unwrap();
    wb.put_key("other".to_string(), other.copy());
    wb.put_key("mine".to_string(), key.copy());
    wb.put_key("mine again".to_string(), key.copy());
    let tx = wb.add(&vec![], &names(&["in1", "in2", "in1"]), &vec![]).unwrap();
    let hash = tx.hash();
    let locks = vec![Some(lock_for(&key)), Some(lock_for(&other)), Some(lock_for(&key))];
    let signed = wb.set_witnesses_by_keys(&hash, &locks).unwrap();
    assert_eq!(signed.witnesses(), &vec![key.sign(&hash), other.sign(&hash), key.sign(&hash)]);
}

#[test]
fn signing_without_keys_leaves_every_witness_empty() {
    let mut wb = bench();
    let tx = wb.add(&vec![], &names(&["in1", "in2"]), &vec![]).unwrap();
    let key = Key::new([1; 32]).unwrap();
    let signed = wb.set_witnesses_by_keys(&tx.hash(), &vec![Some(lock_for(&key)), Some(lock_for(&key))]);
    assert_eq!(signed, Ok(tx));
}

#[test]
fn signing_again_replaces_the_witnesses() {
    let mut wb = bench();
    let key = Key::new([1; 32]).unwrap();
    let stranger = Key::new([2; 32]).unwrap();
    wb.put_key("mine".to_string(), key.copy());
    let tx = wb.add(&vec![], &names(&["in1", "in2"]), &vec![]).unwrap();
    let hash = tx.hash();
    let first = wb
        .set_witnesses_by_keys(&hash, &vec![Some(lock_for(&key)), Some(lock_for(&stranger))])
        .unwrap();
    assert_eq!(first.witnesses(), &vec![key.sign(&hash), vec![]]);
    let second = wb
        .set_witnesses_by_keys(&hash, &vec![Some(lock_for(&stranger)), Some(lock_for(&key))])
        .unwrap();
    assert_eq!(second.witnesses(), &vec![vec![], key.sign(&hash)]);
    assert_eq!(wb.get(&hash), Ok(second));
}

#[test]
fn signing_of_unstaged_hash_is_not_found() {
    let mut wb = bench();
    assert_eq!(wb.set_witnesses_by_keys(&Hash256 { bytes: [0; 32] }, &vec![]), Err(TxError::NotFound));
}

#[test]
fn signing_fails_where_the_remote_side_did_not_answer() {
    let mut wb = bench();
    let key = Key::new([1; 32]).unwrap();
    wb.put_key("mine".to_string(), key.copy());
    let tx = wb.add(&vec![], &names(&["in1", "in2"]), &vec![]).unwrap();
    let hash = tx.hash();
    for locks in [
        vec![Some(lock_for(&key)), None],
        vec![None, Some(lock_for(&key))],
        vec![None, None],
        vec![Some(lock_for(&key))],
        vec![],
        vec![Some(lock_for(&key)), Some(lock_for(&key)), Some(lock_for(&key))],
    ] {
        assert_eq!(wb.set_witnesses_by_keys(&hash, &locks), Err(TxError::RemoteUnavailable));
        assert_eq!(wb.get(&hash), Ok(tx.copy()));
    }
}

#[test]
fn verdict_is_held_against_the_budget() {
    assert_eq!(judge(RemoteAnswer::Judged { valid: true, cost: 10 }, 10), Ok(Verdict { valid: true, cost: 10 }));
    assert_eq!(judge(RemoteAnswer::Judged { valid: true, cost: 0 }, 0), Ok(Verdict { valid: true, cost: 0 }));
    assert_eq!(judge(RemoteAnswer::Judged { valid: true, cost: 11 }, 10), Err(TxError::BudgetExceeded));
    assert_eq!(judge(RemoteAnswer::Judged { valid: true, cost: 1 }, 0), Err(TxError::BudgetExceeded));
    assert_eq!(
        judge(RemoteAnswer::Judged { valid: true, cost: u64::MAX }, u64::MAX),
        Ok(Verdict { valid: true, cost: u64::MAX })
    );
    assert_eq!(judge(RemoteAnswer::Judged { valid: false, cost: 1 }, 10), Err(TxError::RemoteRejected));
    assert_eq!(judge(RemoteAnswer::Judged { valid: false, cost: 11 }, 10), Err(TxError::RemoteRejected));
    assert_eq!(judge(RemoteAnswer::Unreachable, 10), Err(TxError::RemoteUnavailable));
}

#[test]
fn verify_of_unstaged_hash_is_not_found() {
    let wb = bench();
    let answer = RemoteAnswer::Judged { valid: true, cost: 1 };
    assert_eq!(wb.verify(&Hash256 { bytes: [0; 32] }, u64::MAX, answer), Err(TxError::NotFound));
    assert_eq!(wb.verify(&Hash256 { bytes: [0; 32] }, u64::MAX, RemoteAnswer::Unreachable), Err(TxError::NotFound));
}

#[test]
fn verify_of_staged_transaction_gives_the_verdict() {
    let mut wb = bench();
    let tx = wb.add(&vec![], &names(&["in1"]), &names(&["out1"])).unwrap();
    let hash = tx.hash();
    assert_eq!(
        wb.verify(&hash, u64::MAX, RemoteAnswer::Judged { valid: true, cost: 1234 }),
        Ok(Verdict { valid: true, cost: 1234 })
    );
    assert_eq!(
        wb.verify(&hash, 1233, RemoteAnswer::Judged { valid: true, cost: 1234 }),
        Err(TxError::BudgetExceeded)
    );
    assert_eq!(
        wb.verify(&hash, u64::MAX, RemoteAnswer::Judged { valid: false, cost: 0 }),
        Err(TxError::RemoteRejected)
    );
    assert_eq!(wb.verify(&hash, u64::MAX, RemoteAnswer::Unreachable), Err(TxError::RemoteUnavailable));
    assert_eq!(wb.get(&hash), Ok(tx));
}

#[test]
fn nothing_works_without_the_store() {
    let mut wb = Workbench::unavailable();
    let hash = Hash256 { bytes: [0; 32] };
    assert!(!wb.is_available());
    assert!(Workbench::new().is_available());
    assert_eq!(wb.add(&vec![], &vec![], &vec![]), Err(TxError::StoreUnavailable));
    assert_eq!(wb.get(&hash), Err(TxError::StoreUnavailable));
    assert_eq!(wb.remove(&hash), Err(TxError::StoreUnavailable));
    assert_eq!(wb.list(), Err(TxError::StoreUnavailable));
    assert!(matches!(wb.keys(), Err(TxError::StoreUnavailable)));
    assert_eq!(wb.set_witnesses_by_keys(&hash, &vec![]), Err(TxError::StoreUnavailable));
    assert_eq!(wb.verify(&hash, 0, RemoteAnswer::Unreachable), Err(TxError::StoreUnavailable));
    assert_eq!(wb.input(&"in1".to_string()), Err(TxError::StoreUnavailable));
    assert_eq!(wb.cell(&"out1".to_string()), Err(TxError::StoreUnavailable));
}

#[test]
fn failures_say_what_failed() {
    assert_eq!(TxError::MalformedDependency { at: 0 }.message(), "malformed dependency at position 0");
    assert_eq!(TxError::InvalidHash { at: 12 }.message(), "invalid hash at position 12");
    assert_eq!(TxError::InvalidIndex { at: 305 }.message(), "invalid index at position 305");
    assert_eq!(
        TxError::UnknownReference { list: NameList::Inputs, at: 7 }.message(),
        "unknown input at position 7"
    );
    assert_eq!(
        TxError::UnknownReference { list: NameList::Outputs, at: 10 }.message(),
        "unknown output at position 10"
    );
    assert_eq!(TxError::NotFound.message(), "not found");
    assert_eq!(TxError::CorruptRecord.message(), "corrupt record");
    assert_eq!(TxError::StoreUnavailable.message(), "store unavailable");
    assert_eq!(TxError::RemoteUnavailable.message(), "remote verifier unavailable");
    assert_eq!(TxError::RemoteRejected.message(), "rejected by the remote verifier");
    assert_eq!(TxError::BudgetExceeded.message(), "budget exceeded");
    assert_eq!(
        TxError::InvalidHash { at: usize::MAX }.message(),
        format!("invalid hash at position {}", usize::MAX)
    );
}
