//! How a transaction and the storage engine take turns.
//!
//! A transaction decides what happens and in which order; the storage engine and the transaction
//! manager do it. So an operation that needs them goes in steps: the transaction is told what
//! happened, an event, and answers with what is to be done next, a step.
use vstd::prelude::*;
use crate::snapshot::SnapshotId;
use crate::transaction::error::TransactionError;
use crate::transaction::value::{Change, TransactionContext};

verus! {

/// What happens to a transaction that is being committed.
#[derive(PartialEq, Eq, Debug)]
pub enum CommitEvent {
    /// The commit was asked for.
    Requested,
    /// The changes were applied, and this is the resulting context.
    Applied(TransactionContext),
    /// The state was saved.
    Persisted,
}

/// What is to be done for a transaction that is being committed or rolled back.
#[derive(PartialEq, Eq, Debug)]
pub enum CommitStep {
    /// Apply these changes to the context, then report [`CommitEvent::Applied`].
    Apply { context: TransactionContext, changes: Vec<Change> },
    /// Lock the transaction manager, save the state of this context, then report
    /// [`CommitEvent::Persisted`].
    Persist { context: TransactionContext },
    /// Remove the transaction from the transaction manager. This is the last step.
    Release(Release),
}

/// A transaction that is to be removed from the transaction manager.
#[derive(Copy, Clone, PartialEq, Eq, Debug)]
pub struct Release {
    pub snapshot_id: SnapshotId,
    /// Whether the transaction is the writing one.
    pub write: bool,
}

/// What happens to an upgradable transaction that computes its root.
#[derive(PartialEq, Eq, Debug)]
pub enum RootEvent {
    /// The root was asked for.
    Requested,
    /// A write context was opened.
    ContextOpened(TransactionContext),
    /// The transaction manager was asked to begin a write on this context. It answered with the
    /// lowest snapshot that is still in use, or with an error.
    WriteBegun(TransactionContext, Result<SnapshotId, TransactionError>),
    /// The snapshots that are no longer in use were unlocked.
    Unlocked(TransactionContext),
    /// The changes were applied with this resulting context, or could not be applied.
    Applied(Result<TransactionContext, TransactionError>),
}

/// What is to be done for an upgradable transaction that computes its root.
#[derive(PartialEq, Eq, Debug)]
pub enum RootStep {
    /// Open a write context, then report [`RootEvent::ContextOpened`].
    OpenContext,
    /// Ask the transaction manager to begin a write at the snapshot of this context, then report
    /// [`RootEvent::WriteBegun`].
    BeginWrite(TransactionContext),
    /// Unlock the pages that were orphaned at this snapshot or earlier, then report
    /// [`RootEvent::Unlocked`].
    Unlock(TransactionContext, SnapshotId),
    /// Apply these changes to the context, then report [`RootEvent::Applied`].
    Apply(TransactionContext, Vec<Change>),
    /// Answer with this result. This is the last step.
    Finished(Result<[u8; 32], TransactionError>),
}

/// What happens to an upgradable transaction that is being committed.
#[derive(PartialEq, Eq, Debug)]
pub enum UpgradableCommitEvent {
    /// The commit was asked for.
    Requested,
    /// The state was saved, or could not be saved.
    Persisted(Result<(), TransactionError>),
}

/// What is to be done for an upgradable transaction that is being committed.
#[derive(PartialEq, Eq, Debug)]
pub enum UpgradableCommitStep {
    /// Lock the transaction manager, save the state of this context, then report
    /// [`UpgradableCommitEvent::Persisted`].
    Persist(TransactionContext),
    /// Remove the transaction from the transaction manager and answer that it was committed. This
    /// is the last step.
    Release(Release),
    /// Answer with this error. This is the last step.
    Failed(TransactionError),
}

/// What is to be done for an upgradable transaction that is being aborted.
#[derive(PartialEq, Eq, Debug)]
pub enum AbortStep {
    /// Nothing.
    Nothing,
    /// Reset the dirty metadata slot, then remove the transaction from the transaction manager.
    Discard(Release),
}

} // verus!
