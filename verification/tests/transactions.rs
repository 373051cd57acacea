use triemeta::transaction::step::{
    AbortStep, CommitEvent, CommitStep, Release, RootEvent, RootStep, UpgradableCommitEvent,
    UpgradableCommitStep,
};
use triemeta::transaction::value::{
    Account, AddressPath, StoragePath, TransactionContext, TrieValue,
};
use triemeta::transaction::{Transaction, TransactionError, UpgradableTransaction, RO, RW};

fn context(snapshot_id: u64, byte: u8) -> TransactionContext {
    TransactionContext { snapshot_id, root_node_hash: [byte; 32] }
}

fn account(nonce: u64) -> Account {
    Account { nonce, balance: [1; 32], storage_root: [2; 32], code_hash: [3; 32] }
}

fn address(nibble: u8) -> AddressPath {
    AddressPath { raw: vec![nibble; 64] }
}

fn storage(nibble: u8) -> StoragePath {
    StoragePath { raw: vec![nibble; 128] }
}

/// A transaction whose root was asked for.
fn requested() -> UpgradableTransaction {
    let mut tx = UpgradableTransaction::new();
    assert_eq!(tx.compute_root(RootEvent::Requested), RootStep::OpenContext);
    tx
}

/// A transaction with one change, whose root was asked for.
fn requested_with_change() -> UpgradableTransaction {
    let mut tx = UpgradableTransaction::new();
    tx.set_account(address(1), None).unwrap();
    assert_eq!(tx.compute_root(RootEvent::Requested), RootStep::OpenContext);
    tx
}

fn consumer<T: Send>() {}

#[test]
fn transactions_can_move_between_threads() {
    consumer::<Transaction<RO>>();
    consumer::<Transaction<RW>>();
    consumer::<UpgradableTransaction>();
}

#[test]
fn commit_applies_changes_then_persists() {
    let mut tx = Transaction::<RW>::new(context(7, 1));
    assert_eq!(tx.state_root(), [1; 32]);
    tx.set_account(address(1), Some(account(1))).unwrap();
    tx.set_account(address(2), None).unwrap();
    tx.set_storage_slot(storage(1), Some([9; 32])).unwrap();
    tx.set_storage_slot(storage(2), None).unwrap();
    tx.set_account(address(1), Some(account(2))).unwrap();
    assert_eq!(tx.state_root(), [1; 32]);

    match tx.commit(CommitEvent::Requested) {
        CommitStep::Apply { context: target, mut changes } => {
            assert_eq!(target, context(7, 1));
            changes.sort_by(|a, b| a.0.cmp(&b.0));
            assert_eq!(
                changes,
                vec![
                    (vec![1; 64], Some(TrieValue::Account(account(2)))),
                    (vec![1; 128], Some(TrieValue::Storage([9; 32]))),
                    (vec![2; 64], None),
                    (vec![2; 128], None),
                ]
            );
        }
        step => panic!("unexpected step {step:?}"),
    }
    let applied = CommitEvent::Applied(context(7, 2));
    assert_eq!(tx.commit(applied), CommitStep::Persist { context: context(7, 2) });
    assert_eq!(tx.state_root(), [2; 32]);
    assert_eq!(
        tx.commit(CommitEvent::Persisted),
        CommitStep::Release(Release { snapshot_id: 7, write: true })
    );
}

#[test]
fn commit_without_changes_only_persists() {
    let mut tx = Transaction::<RW>::new(context(7, 1));
    assert_eq!(
        tx.commit(CommitEvent::Requested),
        CommitStep::Persist { context: context(7, 1) }
    );
}

#[test]
fn end_of_transaction() {
    let mut tx = Transaction::<RW>::new(context(7, 1));
    tx.set_account(address(1), Some(account(1))).unwrap();
    assert_eq!(tx.rollback(), Release { snapshot_id: 7, write: true });
    let tx = Transaction::<RO>::new(context(8, 1));
    assert_eq!(tx.commit(), Release { snapshot_id: 8, write: false });
}

#[test]
fn root_is_computed_in_order() {
    let mut tx = UpgradableTransaction::new();
    assert_eq!(tx.state_root(), None);
    tx.set_account(address(1), Some(account(1))).unwrap();
    tx.set_account(address(1), Some(account(2))).unwrap();
    tx.set_storage_slot(storage(1), Some([4; 32])).unwrap();
    assert_eq!(tx.pending_changes_count(), 2);
    assert!(!tx.computed());

    let target = context(5, 1);
    assert_eq!(tx.compute_root(RootEvent::Requested), RootStep::OpenContext);
    assert_eq!(
        tx.compute_root(RootEvent::ContextOpened(target)),
        RootStep::BeginWrite(target)
    );
    assert_eq!(
        tx.compute_root(RootEvent::WriteBegun(target, Ok(3))),
        RootStep::Unlock(target, 2)
    );
    match tx.compute_root(RootEvent::Unlocked(target)) {
        RootStep::Apply(apply_to, mut changes) => {
            assert_eq!(apply_to, target);
            changes.sort_by(|a, b| a.0.cmp(&b.0));
            assert_eq!(
                changes,
                vec![
                    (vec![1; 64], Some(TrieValue::Account(account(2)))),
                    (vec![1; 128], Some(TrieValue::Storage([4; 32]))),
                ]
            );
        }
        step => panic!("unexpected step {step:?}"),
    }
    assert_eq!(tx.state_root(), None);
    assert_eq!(
        tx.compute_root(RootEvent::Applied(Ok(context(5, 2)))),
        RootStep::Finished(Ok([2; 32]))
    );
    assert!(tx.computed());
    assert_eq!(tx.pending_changes_count(), 0);
    assert_eq!(tx.state_root(), Some([2; 32]));

    // Asking again gives the same root
    assert_eq!(tx.compute_root(RootEvent::Requested), RootStep::Finished(Ok([2; 32])));

    // No more changes
    assert_eq!(tx.set_account(address(1), None), Err(TransactionError));
    assert_eq!(tx.set_storage_slot(storage(1), None), Err(TransactionError));
    assert_eq!(tx.pending_changes_count(), 0);

    assert_eq!(
        tx.commit(UpgradableCommitEvent::Requested),
        UpgradableCommitStep::Persist(context(5, 2))
    );
    assert_eq!(
        tx.commit(UpgradableCommitEvent::Persisted(Err(TransactionError))),
        UpgradableCommitStep::Failed(TransactionError)
    );
    assert_eq!(
        tx.commit(UpgradableCommitEvent::Persisted(Ok(()))),
        UpgradableCommitStep::Release(Release { snapshot_id: 5, write: true })
    );
    assert_eq!(tx.abort(), AbortStep::Discard(Release { snapshot_id: 5, write: true }));
}

#[test]
fn root_without_changes() {
    let mut tx = requested();
    assert_eq!(
        tx.compute_root(RootEvent::WriteBegun(context(5, 1), Ok(0))),
        RootStep::Finished(Ok([1; 32]))
    );
    assert!(tx.computed());
    let mut tx = requested();
    assert_eq!(
        tx.compute_root(RootEvent::WriteBegun(context(5, 1), Ok(1))),
        RootStep::Unlock(context(5, 1), 0)
    );
    assert!(!tx.computed());
}

#[test]
fn refused_write_keeps_changes() {
    let mut tx = requested_with_change();
    assert_eq!(
        tx.compute_root(RootEvent::WriteBegun(context(5, 1), Err(TransactionError))),
        RootStep::Finished(Err(TransactionError))
    );
    assert_eq!(tx.pending_changes_count(), 1);
    assert!(!tx.computed());

    // The root was asked for, so no change is accepted and it is not computed again
    assert_eq!(tx.set_account(address(2), None), Err(TransactionError));
    assert_eq!(tx.set_storage_slot(storage(2), None), Err(TransactionError));
    assert_eq!(tx.pending_changes_count(), 1);
    assert_eq!(
        tx.compute_root(RootEvent::Requested),
        RootStep::Finished(Err(TransactionError))
    );
    assert_eq!(
        tx.commit(UpgradableCommitEvent::Requested),
        UpgradableCommitStep::Failed(TransactionError)
    );
    // The write lock was not acquired
    assert_eq!(tx.abort(), AbortStep::Nothing);
}

#[test]
fn failed_root_releases_lock_on_abort() {
    let mut tx = requested_with_change();
    tx.compute_root(RootEvent::WriteBegun(context(5, 1), Ok(0)));
    assert_eq!(
        tx.compute_root(RootEvent::Applied(Err(TransactionError))),
        RootStep::Finished(Err(TransactionError))
    );
    assert_eq!(tx.pending_changes_count(), 0);
    assert!(!tx.computed());
    assert_eq!(tx.state_root(), None);
    assert_eq!(tx.set_account(address(2), None), Err(TransactionError));
    assert_eq!(tx.set_storage_slot(storage(2), None), Err(TransactionError));
    assert_eq!(
        tx.compute_root(RootEvent::Requested),
        RootStep::Finished(Err(TransactionError))
    );
    assert_eq!(
        tx.commit(UpgradableCommitEvent::Requested),
        UpgradableCommitStep::Failed(TransactionError)
    );
    assert_eq!(tx.abort(), AbortStep::Discard(Release { snapshot_id: 5, write: true }));
}

#[test]
fn nothing_to_commit_or_abort_before_root() {
    let tx = UpgradableTransaction::new();
    assert_eq!(
        tx.commit(UpgradableCommitEvent::Requested),
        UpgradableCommitStep::Failed(TransactionError)
    );
    assert_eq!(tx.abort(), AbortStep::Nothing);
}
