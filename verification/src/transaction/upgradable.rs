//! Transactions that start without a write lock.
use vstd::prelude::*;
use crate::snapshot::SnapshotId;
use crate::transaction::direct::{account_value, storage_value};
use crate::transaction::error::TransactionError;
use crate::transaction::pending::{lists_all, no_changes, PendingChanges};
use crate::transaction::step::{
    AbortStep, Release, RootEvent, RootStep, UpgradableCommitEvent, UpgradableCommitStep,
};
use crate::transaction::value::{
    Account, AddressPath, StoragePath, StorageValue, TransactionContext, TrieValue,
};

verus! {

/// A transaction that starts without a write lock and can be upgraded to write mode.
///
/// This transaction type allows you to:
/// 1. Accumulate changes without holding a write lock
/// 2. Compute the state root hash (acquires write lock)
/// 3. Either commit (fast - just disk sync) or abort (fast - just reset metadata)
pub struct UpgradableTransaction {
    pending_changes: PendingChanges,
    root: RootComputation,
}

/// How far the computation of the root has come.
struct RootComputation {
    /// The write context to which the changes were applied, once the root has been computed.
    context: Option<TransactionContext>,
    /// Whether the root was asked for.
    called: bool,
    /// The snapshot at which the write lock is held, once it has been acquired.
    begun: Option<SnapshotId>,
}

impl RootComputation {
    #[verifier::type_invariant]
    spec fn well_formed(self) -> bool {
        &&& self.begun is Some ==> self.called
        &&& self.context matches Some(context) ==> self.begun == Some(context.snapshot_id)
    }
}

/// Contents of an upgradable transaction.
pub struct UpgradableView {
    /// For each path that has a change, the new value, or `None` if the value is removed.
    pub pending: Map<Seq<u8>, Option<TrieValue>>,
    /// The write context to which the changes were applied, once the root has been computed.
    pub context: Option<TransactionContext>,
    /// The root was asked for.
    pub called: bool,
    /// The snapshot at which the write lock is held, once it has been acquired.
    pub begun: Option<SnapshotId>,
}

impl UpgradableView {
    /// The root has been computed.
    pub open spec fn computed(self) -> bool {
        self.context is Some
    }

    /// The write lock is acquired only for a root that was asked for, and is held at the snapshot
    /// of the write context.
    pub open spec fn wf(self) -> bool {
        &&& self.begun is Some ==> self.called
        &&& self.context matches Some(context) ==> self.begun == Some(context.snapshot_id)
    }

    /// The event can come next: replies come only to a root computation that was asked for and is
    /// not finished, and nothing is applied before the write lock has been acquired.
    pub open spec fn expects(self, event: RootEvent) -> bool {
        match event {
            RootEvent::Requested => true,
            RootEvent::ContextOpened(_) | RootEvent::WriteBegun(..) => self.called
                && !self.computed(),
            RootEvent::Unlocked(_) | RootEvent::Applied(_) => self.begun is Some
                && !self.computed(),
        }
    }

    /// The context becomes the result of the root computation.
    pub open spec fn with_result(self, context: TransactionContext) -> UpgradableView {
        UpgradableView { context: Some(context), begun: Some(context.snapshot_id), ..self }
    }
}

impl View for UpgradableTransaction {
    type V = UpgradableView;

    closed spec fn view(&self) -> UpgradableView {
        UpgradableView {
            pending: self.pending_changes@,
            context: self.root.context,
            called: self.root.called,
            begun: self.root.begun,
        }
    }
}

/// All changes are taken out and are to be applied to the context. If there are none, the context
/// is already the result.
pub open spec fn applies_pending(
    before: UpgradableView,
    context: TransactionContext,
    after: UpgradableView,
    step: RootStep,
) -> bool {
    &&& if before.pending == no_changes() {
        &&& after == before.with_result(context)
        &&& step == RootStep::Finished(Ok(context.root_node_hash))
    } else {
        &&& after == (UpgradableView { pending: no_changes(), ..before })
        &&& step matches RootStep::Apply(target, changes)
        &&& target == context
        &&& lists_all(changes@, before.pending)
    }
}

/// What an event of a root computation makes of the transaction, and the step that follows.
pub open spec fn root_transition(
    before: UpgradableView,
    event: RootEvent,
    after: UpgradableView,
    step: RootStep,
) -> bool {
    match event {
        RootEvent::Requested => {
            &&& after == (UpgradableView { called: true, ..before })
            &&& step == match before.context {
                Some(context) => RootStep::Finished(Ok(context.root_node_hash)),
                None => if before.called {
                    RootStep::Finished(Err(TransactionError))
                } else {
                    RootStep::OpenContext
                },
            }
        },
        RootEvent::ContextOpened(context) => {
            &&& after == before
            &&& step == RootStep::BeginWrite(context)
        },
        RootEvent::WriteBegun(context, Err(error)) => {
            &&& after == before
            &&& step == RootStep::Finished(Err(error))
        },
        RootEvent::WriteBegun(context, Ok(min_snapshot_id)) => {
            let begun = UpgradableView { begun: Some(context.snapshot_id), ..before };
            if min_snapshot_id > 0 {
                &&& after == begun
                &&& step == RootStep::Unlock(context, (min_snapshot_id - 1) as u64)
            } else {
                applies_pending(begun, context, after, step)
            }
        },
        RootEvent::Unlocked(context) => applies_pending(before, context, after, step),
        RootEvent::Applied(Ok(context)) => {
            &&& after == before.with_result(context)
            &&& step == RootStep::Finished(Ok(context.root_node_hash))
        },
        RootEvent::Applied(Err(error)) => {
            &&& after == before
            &&& step == RootStep::Finished(Err(error))
        },
    }
}

impl UpgradableTransaction {
    /// Starts a transaction.
    pub fn new() -> (transaction: Self)
        ensures
            transaction@ == (UpgradableView {
                pending: no_changes(),
                context: None,
                called: false,
                begun: None,
            }),
            transaction@.wf(),
    {
        UpgradableTransaction {
            pending_changes: PendingChanges::new(),
            root: RootComputation { context: None, called: false, begun: None },
        }
    }

    /// Tells whether the root has been computed.
    pub fn computed(&self) -> (computed: bool)
        ensures
            computed == self@.computed(),
    {
        self.root.context.is_some()
    }

    /// Number of changes that have not been applied yet.
    pub fn pending_changes_count(&self) -> (count: usize)
        ensures
            count == self@.pending.dom().len(),
    {
        self.pending_changes.len()
    }

    /// Accumulates an account change. No write lock is held.
    ///
    /// Returns an error if `compute_root()` has already been called, whether or not it succeeded.
    pub fn set_account(&mut self, address_path: AddressPath, account: Option<Account>) -> (result:
        Result<(), TransactionError>)
        ensures
            result is Err <==> old(self)@.called,
            final(self)@ == if old(self)@.called {
                old(self)@
            } else {
                UpgradableView {
                    pending: old(self)@.pending.insert(address_path.raw@, account_value(account)),
                    ..old(self)@
                }
            },
            !old(self)@.called && account is Some ==> final(self)@.pending == old(self)@.pending.insert(
                address_path.raw@,
                Some(TrieValue::Account(account->0)),
            ),
            !old(self)@.called && account is None ==> final(self)@.pending == old(self)@.pending.insert(address_path.raw@, None),
            old(self)@.called ==> final(self)@.pending == old(self)@.pending,
            final(self)@.context == old(self)@.context,
            final(self)@.called == old(self)@.called,
            final(self)@.begun == old(self)@.begun,
            final(self)@.wf(),
    {
        proof {
            use_type_invariant(&self.root);
        }
        if self.root.called {
            return Err(TransactionError);
        }
        let value = match account {
            Some(account) => Some(TrieValue::Account(account)),
            None => None,
        };
        self.pending_changes.insert(address_path.raw, value);
        Ok(())
    }

    /// Accumulates a storage slot change. No write lock is held.
    ///
    /// Returns an error if `compute_root()` has already been called, whether or not it succeeded.
    pub fn set_storage_slot(
        &mut self,
        storage_path: StoragePath,
        value: Option<StorageValue>,
    ) -> (result: Result<(), TransactionError>)
        ensures
            result is Err <==> old(self)@.called,
            final(self)@ == if old(self)@.called {
                old(self)@
            } else {
                UpgradableView {
                    pending: old(self)@.pending.insert(storage_path.raw@, storage_value(value)),
                    ..old(self)@
                }
            },
            !old(self)@.called && value is Some ==> final(self)@.pending == old(self)@.pending.insert(
                storage_path.raw@,
                Some(TrieValue::Storage(value->0)),
            ),
            !old(self)@.called && value is None ==> final(self)@.pending == old(self)@.pending.insert(storage_path.raw@, None),
            old(self)@.called ==> final(self)@.pending == old(self)@.pending,
            final(self)@.context == old(self)@.context,
            final(self)@.called == old(self)@.called,
            final(self)@.begun == old(self)@.begun,
            final(self)@.wf(),
    {
        proof {
            use_type_invariant(&self.root);
        }
        if self.root.called {
            return Err(TransactionError);
        }
        let value = match value {
            Some(value) => Some(TrieValue::Storage(value)),
            None => None,
        };
        self.pending_changes.insert(storage_path.raw, value);
        Ok(())
    }

    /// Returns the current state root, or `None` if it is the one of the database.
    pub fn state_root(&self) -> (root: Option<[u8; 32]>)
        ensures
            root == match self@.context {
                Some(context) => Some(context.root_node_hash),
                None => None,
            },
    {
        match &self.root.context {
            Some(context) => Some(context.root_node_hash),
            None => None,
        }
    }

    /// Takes out all changes and has them applied to the context.
    fn apply_pending(&mut self, context: TransactionContext) -> (step: RootStep)
        requires
            old(self)@.begun is Some,
            !old(self)@.computed(),
        ensures
            applies_pending(old(self)@, context, final(self)@, step),
    {
        proof {
            use_type_invariant(&self.root);
        }
        let changes = self.pending_changes.drain();
        if changes.is_empty() {
            assert(old(self)@.pending =~= no_changes());
            self.root.begun = Some(context.snapshot_id);
            self.root.context = Some(context);
            RootStep::Finished(Ok(context.root_node_hash))
        } else {
            assert(old(self)@.pending.contains_key(changes@[0].0@));
            RootStep::Apply(context, changes)
        }
    }

    /// Acquires the write lock, applies all pending changes, and gives the computed state root.
    ///
    /// After calling this method, you must call either `commit()` or `abort()`. The root is
    /// computed only once per transaction: when it is asked for again, the answer is the cached
    /// root, or an error if the first computation failed.
    pub fn compute_root(&mut self, event: RootEvent) -> (step: RootStep)
        requires
            old(self)@.expects(event),
        ensures
            root_transition(old(self)@, event, final(self)@, step),
            final(self)@.wf(),
    {
        proof {
            use_type_invariant(&self.root);
        }
        match event {
            RootEvent::Requested => match &self.root.context {
                // Already computed, just return the cached hash
                Some(context) => RootStep::Finished(Ok(context.root_node_hash)),
                None => if self.root.called {
                    // Already tried, and failed
                    RootStep::Finished(Err(TransactionError))
                } else {
                    // Acquire write lock
                    self.root.called = true;
                    RootStep::OpenContext
                },
            },
            RootEvent::ContextOpened(context) => RootStep::BeginWrite(context),
            RootEvent::WriteBegun(context, begun) => match begun {
                Ok(min_snapshot_id) => {
                    self.root.begun = Some(context.snapshot_id);
                    if min_snapshot_id > 0 {
                        RootStep::Unlock(context, min_snapshot_id - 1)
                    } else {
                        self.apply_pending(context)
                    }
                },
                Err(error) => RootStep::Finished(Err(error)),
            },
            // Apply all changes (this computes the hash)
            RootEvent::Unlocked(context) => self.apply_pending(context),
            RootEvent::Applied(applied) => match applied {
                Ok(context) => {
                    self.root.begun = Some(context.snapshot_id);
                    self.root.context = Some(context);
                    RootStep::Finished(Ok(context.root_node_hash))
                },
                Err(error) => RootStep::Finished(Err(error)),
            },
        }
    }

    /// Persists the changes to disk. Must call `compute_root()` first, and it must have succeeded.
    pub fn commit(&self, event: UpgradableCommitEvent) -> (step: UpgradableCommitStep)
        ensures
            step == match (self@.context, event) {
                (None, _) => UpgradableCommitStep::Failed(TransactionError),
                (Some(context), UpgradableCommitEvent::Requested) => UpgradableCommitStep::Persist(
                    context,
                ),
                (Some(context), UpgradableCommitEvent::Persisted(Ok(_))) =>
                    UpgradableCommitStep::Release(
                    (Release { snapshot_id: context.snapshot_id, write: true }),
                ),
                (Some(context), UpgradableCommitEvent::Persisted(Err(error))) =>
                    UpgradableCommitStep::Failed(error),
            },
    {
        match &self.root.context {
            None => UpgradableCommitStep::Failed(TransactionError),
            Some(context) => match event {
                UpgradableCommitEvent::Requested => UpgradableCommitStep::Persist(*context),
                UpgradableCommitEvent::Persisted(Ok(_)) => UpgradableCommitStep::Release(
                    Release { snapshot_id: context.snapshot_id, write: true },
                ),
                UpgradableCommitEvent::Persisted(Err(error)) => UpgradableCommitStep::Failed(error),
            },
        }
    }

    /// Discards all changes and releases the write lock.
    ///
    /// If `compute_root()` was not called, this is a no-op.
    /// If `compute_root()` was called, this resets the dirty metadata slot, even if the changes
    /// could not be applied. If it could not acquire the write lock, the dirty slot may belong to
    /// another transaction, and nothing is reset.
    pub fn abort(self) -> (step: AbortStep)
        ensures
            step == match self@.begun {
                Some(snapshot_id) => AbortStep::Discard((Release { snapshot_id, write: true })),
                None => AbortStep::Nothing,
            },
            self@.context matches Some(context) ==> step == AbortStep::Discard(
                (Release { snapshot_id: context.snapshot_id, write: true }),
            ),
            !self@.called ==> step == AbortStep::Nothing,
    {
        proof {
            use_type_invariant(&self.root);
        }
        match self.root.begun {
            Some(snapshot_id) => AbortStep::Discard(Release { snapshot_id, write: true }),
            // Nothing to abort - no write lock was acquired
            None => AbortStep::Nothing,
        }
    }
}

} // verus!
