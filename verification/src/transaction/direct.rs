//! Transactions that hold their context from the start.
use vstd::prelude::*;
use core::marker::PhantomData;
use crate::transaction::error::TransactionError;
use crate::transaction::kind::{TransactionKind, RO, RW};
use crate::transaction::pending::{lists_all, no_changes, PendingChanges};
use crate::transaction::step::{CommitEvent, CommitStep, Release};
use crate::transaction::value::{
    Account, AddressPath, StoragePath, StorageValue, TransactionContext, TrieValue,
};

verus! {

/// A transaction on a snapshot of the database.
#[derive(Debug)]
pub struct Transaction<K: TransactionKind> {
    committed: bool,
    context: TransactionContext,
    pending_changes: PendingChanges,
    _marker: PhantomData<K>,
}

/// Contents of a transaction.
pub struct TransactionView {
    pub committed: bool,
    pub context: TransactionContext,
    /// For each path that has a change, the new value, or `None` if the value is removed.
    pub pending: Map<Seq<u8>, Option<TrieValue>>,
}

impl<K: TransactionKind> View for Transaction<K> {
    type V = TransactionView;

    closed spec fn view(&self) -> TransactionView {
        TransactionView {
            committed: self.committed,
            context: self.context,
            pending: self.pending_changes@,
        }
    }
}

/// The trie value of an account, if there is one.
pub open spec fn account_value(account: Option<Account>) -> Option<TrieValue> {
    match account {
        Some(account) => Some(TrieValue::Account(account)),
        None => None,
    }
}

/// The trie value of a storage slot, if there is one.
pub open spec fn storage_value(value: Option<StorageValue>) -> Option<TrieValue> {
    match value {
        Some(value) => Some(TrieValue::Storage(value)),
        None => None,
    }
}

/// What an event of a commit makes of the transaction, and the step that follows.
pub open spec fn commit_transition(
    before: TransactionView,
    event: CommitEvent,
    after: TransactionView,
    step: CommitStep,
) -> bool {
    match event {
        CommitEvent::Requested => {
            &&& after == (TransactionView { pending: no_changes(), ..before })
            &&& if before.pending == no_changes() {
                step == CommitStep::Persist { context: before.context }
            } else {
                &&& step matches CommitStep::Apply { context, changes }
                &&& context == before.context
                &&& lists_all(changes@, before.pending)
            }
        },
        CommitEvent::Applied(context) => {
            &&& after == (TransactionView { context, ..before })
            &&& step == CommitStep::Persist { context }
        },
        CommitEvent::Persisted => {
            &&& after == (TransactionView { committed: true, ..before })
            &&& step == CommitStep::Release(
                Release { snapshot_id: before.context.snapshot_id, write: true },
            )
        },
    }
}

impl<K: TransactionKind> Transaction<K> {
    /// Starts a transaction.
    pub fn new(context: TransactionContext) -> (transaction: Self)
        ensures
            transaction@ == (TransactionView { committed: false, context, pending: no_changes() }),
    {
        Transaction {
            committed: false,
            context,
            pending_changes: PendingChanges::new(),
            _marker: PhantomData,
        }
    }

    /// Returns the state root of the transaction's context.
    pub fn state_root(&self) -> (root: [u8; 32])
        ensures
            root == self@.context.root_node_hash,
    {
        self.context.root_node_hash
    }
}

impl Transaction<RW> {
    /// Accumulates an account change.
    pub fn set_account(&mut self, address_path: AddressPath, account: Option<Account>) -> (result:
        Result<(), TransactionError>)
        ensures
            result is Ok,
            final(self)@ == (TransactionView {
                pending: old(self)@.pending.insert(address_path.raw@, account_value(account)),
                ..old(self)@
            }),
            account is Some ==> final(self)@.pending == old(self)@.pending.insert(
                address_path.raw@,
                Some(TrieValue::Account(account->0)),
            ),
            account is None ==> final(self)@.pending == old(self)@.pending.insert(address_path.raw@, None),
            final(self)@.context == old(self)@.context,
            final(self)@.committed == old(self)@.committed,
    {
        let value = match account {
            Some(account) => Some(TrieValue::Account(account)),
            None => None,
        };
        self.pending_changes.insert(address_path.raw, value);
        Ok(())
    }

    /// Accumulates a storage slot change.
    pub fn set_storage_slot(
        &mut self,
        storage_path: StoragePath,
        value: Option<StorageValue>,
    ) -> (result: Result<(), TransactionError>)
        ensures
            result is Ok,
            final(self)@ == (TransactionView {
                pending: old(self)@.pending.insert(storage_path.raw@, storage_value(value)),
                ..old(self)@
            }),
            value is Some ==> final(self)@.pending == old(self)@.pending.insert(
                storage_path.raw@,
                Some(TrieValue::Storage(value->0)),
            ),
            value is None ==> final(self)@.pending == old(self)@.pending.insert(storage_path.raw@, None),
            final(self)@.context == old(self)@.context,
            final(self)@.committed == old(self)@.committed,
    {
        let value = match value {
            Some(value) => Some(TrieValue::Storage(value)),
            None => None,
        };
        self.pending_changes.insert(storage_path.raw, value);
        Ok(())
    }

    /// Commits the transaction: applies the changes, if there are any, saves the new state, and
    /// ends the transaction.
    pub fn commit(&mut self, event: CommitEvent) -> (step: CommitStep)
        ensures
            commit_transition(old(self)@, event, final(self)@, step),
    {
        match event {
            CommitEvent::Requested => {
                let changes = self.pending_changes.drain();
                if changes.is_empty() {
                    assert(old(self)@.pending =~= no_changes());
                    CommitStep::Persist { context: self.context }
                } else {
                    assert(old(self)@.pending.contains_key(changes@[0].0@));
                    CommitStep::Apply { context: self.context, changes }
                }
            },
            CommitEvent::Applied(context) => {
                self.context = context;
                CommitStep::Persist { context }
            },
            CommitEvent::Persisted => {
                self.committed = true;
                CommitStep::Release(
                    Release { snapshot_id: self.context.snapshot_id, write: true },
                )
            },
        }
    }

    /// Ends the transaction and drops its changes.
    pub fn rollback(self) -> (release: Release)
        ensures
            release == (Release { snapshot_id: self@.context.snapshot_id, write: true }),
    {
        Release { snapshot_id: self.context.snapshot_id, write: true }
    }
}

impl Transaction<RO> {
    /// Ends the transaction.
    pub fn commit(self) -> (release: Release)
        ensures
            release == (Release { snapshot_id: self@.context.snapshot_id, write: false }),
    {
        Release { snapshot_id: self.context.snapshot_id, write: false }
    }
}

} // verus!
