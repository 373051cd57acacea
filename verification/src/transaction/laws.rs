//! What transactions promise across calls.
use vstd::prelude::*;
use crate::transaction::direct::{
    account_value, commit_transition, storage_value, TransactionView,
};
use crate::transaction::error::TransactionError;
use crate::transaction::pending::{lists_all, no_changes};
use crate::transaction::step::{CommitEvent, CommitStep, Release, RootEvent, RootStep};
use crate::transaction::upgradable::{root_transition, UpgradableView};
use crate::transaction::value::{
    Account, Change, StorageValue, TransactionContext, TrieValue,
};

verus! {

/// When the changes are applied, a path that was given several values is changed once, to the last
/// one.
pub proof fn last_change_wins(
    pending: Map<Seq<u8>, Option<TrieValue>>,
    path: Seq<u8>,
    earlier: Option<TrieValue>,
    later: Option<TrieValue>,
    changes: Seq<Change>,
)
    requires
        lists_all(changes, pending.insert(path, earlier).insert(path, later)),
    ensures
        exists|i: int|
            0 <= i < changes.len() && (#[trigger] changes[i]).0@ == path && changes[i].1 == later,
        forall|i: int|
            0 <= i < changes.len() && (#[trigger] changes[i]).0@ == path ==> changes[i].1 == later,
        forall|i: int, j: int|
            0 <= i < changes.len() && 0 <= j < changes.len() && (#[trigger] changes[i]).0@ == path
                && (#[trigger] changes[j]).0@ == path ==> i == j,
{
    let pending = pending.insert(path, earlier).insert(path, later);
    assert(pending.contains_key(path));
    let i = choose|i: int| 0 <= i < changes.len() && (#[trigger] changes[i]).0@ == path;
    assert(changes[i].0@ == path && changes[i].1 == later);
    assert forall|i: int, j: int|
        0 <= i < changes.len() && 0 <= j < changes.len() && (#[trigger] changes[i]).0@ == path && (
        #[trigger] changes[j]).0@ == path implies i == j by {
        if i < j {
            assert(changes[i].0@ != changes[j].0@);
        } else if j < i {
            assert(changes[j].0@ != changes[i].0@);
        }
    }
}

/// A path is given a value exactly if the caller gave one, and it is that value, whatever it is. No
/// value of an account is ever that of a storage slot.
pub proof fn given_value_is_kept(account: Account, value: StorageValue)
    ensures
        account_value(Some(account)) == Some(TrieValue::Account(account)),
        account_value(None) is None,
        storage_value(Some(value)) == Some(TrieValue::Storage(value)),
        storage_value(None) is None,
        account_value(Some(account)) != storage_value(Some(value)),
{
}

/// Setting accounts or storage slots loses nothing: from the pending values one can tell what the
/// caller gave.
pub proof fn different_values_stay_different(
    account: Option<Account>,
    other_account: Option<Account>,
    value: Option<StorageValue>,
    other_value: Option<StorageValue>,
)
    ensures
        account_value(account) == account_value(other_account) ==> account == other_account,
        storage_value(value) == storage_value(other_value) ==> value == other_value,
{
}

/// There is no change for any path.
pub proof fn no_path_has_a_change(path: Seq<u8>)
    ensures
        !no_changes().contains_key(path),
{
}

/// A list of changes holds all changes of a map exactly if every path of the map occurs in it with
/// its value, no path occurs twice, and no other path occurs.
pub proof fn listed_changes_are_exact(
    changes: Seq<Change>,
    map: Map<Seq<u8>, Option<TrieValue>>,
)
    ensures
        lists_all(changes, map) <==> {
            &&& forall|path: Seq<u8>| #[trigger]
                map.contains_key(path) ==> exists|i: int|
                    0 <= i < changes.len() && (#[trigger] changes[i]).0@ == path && changes[i].1
                        == map[path]
            &&& forall|i: int|
                0 <= i < changes.len() ==> map.contains_key((#[trigger] changes[i]).0@)
            &&& forall|i: int, j: int|
                0 <= i < changes.len() && 0 <= j < changes.len() && (#[trigger] changes[i]).0@ == (
                #[trigger] changes[j]).0@ ==> i == j
        },
{
    let exact = {
        &&& forall|path: Seq<u8>| #[trigger]
            map.contains_key(path) ==> exists|i: int|
                0 <= i < changes.len() && (#[trigger] changes[i]).0@ == path && changes[i].1
                    == map[path]
        &&& forall|i: int|
            0 <= i < changes.len() ==> map.contains_key((#[trigger] changes[i]).0@)
        &&& forall|i: int, j: int|
            0 <= i < changes.len() && 0 <= j < changes.len() && (#[trigger] changes[i]).0@ == (
            #[trigger] changes[j]).0@ ==> i == j
    };
    if lists_all(changes, map) {
        assert forall|path: Seq<u8>| #[trigger] map.contains_key(path) implies exists|i: int|
            0 <= i < changes.len() && (#[trigger] changes[i]).0@ == path && changes[i].1
                == map[path] by {
            let i = choose|i: int| 0 <= i < changes.len() && (#[trigger] changes[i]).0@ == path;
            assert(changes[i].0@ == path && changes[i].1 == map[path]);
        }
        assert forall|i: int, j: int|
            0 <= i < changes.len() && 0 <= j < changes.len() && (#[trigger] changes[i]).0@ == (
            #[trigger] changes[j]).0@ implies i == j by {
            if i < j {
                assert(changes[i].0@ != changes[j].0@);
            } else if j < i {
                assert(changes[j].0@ != changes[i].0@);
            }
        }
        assert(exact);
    }
    if exact {
        assert forall|i: int| 0 <= i < changes.len() implies map.contains_key(
            (#[trigger] changes[i]).0@,
        ) && map[changes[i].0@] == changes[i].1 by {
            let path = changes[i].0@;
            assert(map.contains_key(path));
            let j = choose|j: int|
                0 <= j < changes.len() && (#[trigger] changes[j]).0@ == path && changes[j].1
                    == map[path];
            assert(changes[i].0@ == changes[j].0@);
        }
        assert forall|path: Seq<u8>| #[trigger] map.contains_key(path) implies exists|i: int|
            0 <= i < changes.len() && (#[trigger] changes[i]).0@ == path by {
            let i = choose|i: int|
                0 <= i < changes.len() && (#[trigger] changes[i]).0@ == path && changes[i].1
                    == map[path];
            assert(changes[i].0@ == path);
        }
        assert(lists_all(changes, map));
    }
}

/// What each event of a commit leaves as it is, and what it asks for. Only the request takes out
/// changes, and it hands all of them on; if there is any, nothing is saved before it was applied.
pub proof fn commit_events(
    before: TransactionView,
    event: CommitEvent,
    after: TransactionView,
    step: CommitStep,
)
    requires
        commit_transition(before, event, after, step),
    ensures
        event is Requested ==> {
            &&& after.context == before.context
            &&& after.committed == before.committed
            &&& forall|path: Seq<u8>| !after.pending.contains_key(path)
            &&& step is Apply || step is Persist
            &&& step matches CommitStep::Apply { context, changes } ==> {
                &&& context == before.context
                &&& lists_all(changes@, before.pending)
                &&& changes@.len() > 0
            }
            &&& step matches CommitStep::Persist { context } ==> {
                &&& context == before.context
                &&& forall|path: Seq<u8>| !before.pending.contains_key(path)
            }
        },
        event matches CommitEvent::Applied(result) ==> {
            &&& after.context == result
            &&& after.committed == before.committed
            &&& after.pending == before.pending
            &&& step == (CommitStep::Persist { context: result })
        },
        event is Persisted ==> {
            &&& after.context == before.context
            &&& after.committed
            &&& after.pending == before.pending
            &&& step matches CommitStep::Release(release)
            &&& release.snapshot_id == before.context.snapshot_id
            &&& release.write
        },
{
    if event is Requested {
        if step is Apply {
            assert(before.pending != no_changes());
            if forall|path: Seq<u8>| !before.pending.contains_key(path) {
                assert(before.pending =~= no_changes());
            }
            let path = choose|path: Seq<u8>| before.pending.contains_key(path);
            assert(before.pending.contains_key(path));
        }
    }
}

/// A commit from start to end: all changes are applied, if there are any, then the resulting context
/// is saved, then the transaction is released at the snapshot of that context.
pub proof fn commit_sequence(
    start: TransactionView,
    requested: (TransactionView, CommitStep),
    applied: TransactionContext,
    saving: (TransactionView, CommitStep),
    end: (TransactionView, CommitStep),
)
    requires
        commit_transition(start, CommitEvent::Requested, requested.0, requested.1),
        if start.pending == no_changes() {
            saving == requested && applied == start.context
        } else {
            commit_transition(requested.0, CommitEvent::Applied(applied), saving.0, saving.1)
        },
        commit_transition(saving.0, CommitEvent::Persisted, end.0, end.1),
    ensures
        start.pending != no_changes() ==> {
            &&& requested.1 matches CommitStep::Apply { context, changes }
            &&& context == start.context
            &&& lists_all(changes@, start.pending)
        },
        saving.1 == (CommitStep::Persist { context: applied }),
        end.0 == (TransactionView { committed: true, context: applied, pending: no_changes() }),
        end.1 == CommitStep::Release(
            (Release { snapshot_id: applied.snapshot_id, write: true }),
        ),
{
}

/// Once the root has been computed, asking for it again gives the same root and changes nothing.
pub proof fn root_is_computed_once(
    before: UpgradableView,
    event: RootEvent,
    after: UpgradableView,
    root: [u8; 32],
    later: UpgradableView,
    step: RootStep,
)
    requires
        before.wf(),
        before.expects(event),
        root_transition(before, event, after, RootStep::Finished(Ok(root))),
        root_transition(after, RootEvent::Requested, later, step),
    ensures
        after.computed(),
        after.context.unwrap().root_node_hash == root,
        later == after,
        step == RootStep::Finished(Ok(root)),
{
}

/// What the parts of a root computation say of its progress.
pub proof fn root_progress(view: UpgradableView, event: RootEvent, context: TransactionContext)
    ensures
        view.computed() <==> view.context is Some,
        view.wf() <==> {
            &&& view.begun is Some ==> view.called
            &&& view.context is Some ==> view.begun == Some(view.context->0.snapshot_id)
        },
        event is Requested ==> view.expects(event),
        event is ContextOpened || event is WriteBegun ==> (view.expects(event) <==> view.called
            && view.context is None),
        event is Unlocked || event is Applied ==> (view.expects(event) <==> view.begun is Some
            && view.context is None),
        view.with_result(context).context == Some(context),
        view.with_result(context).begun == Some(context.snapshot_id),
        view.with_result(context).pending == view.pending,
        view.with_result(context).called == view.called,
{
}

/// What each event of a root computation leaves as it is, and what it asks for. The changes stay
/// until they are handed on to be applied, all at once, and that happens only after the write has
/// begun.
pub proof fn root_events(
    before: UpgradableView,
    event: RootEvent,
    after: UpgradableView,
    step: RootStep,
)
    requires
        before.expects(event),
        root_transition(before, event, after, step),
    ensures
        event is Requested ==> {
            &&& after.called
            &&& after.pending == before.pending
            &&& after.context == before.context
            &&& after.begun == before.begun
            &&& before.context is None && !before.called ==> step is OpenContext
            &&& before.context is None && before.called ==> step == RootStep::Finished(
                Err(TransactionError),
            )
            &&& before.context matches Some(context) ==> step == RootStep::Finished(
                Ok(context.root_node_hash),
            )
        },
        event matches RootEvent::ContextOpened(context) ==> after == before && step
            == RootStep::BeginWrite(context),
        event matches RootEvent::WriteBegun(_, Err(error)) ==> after == before && step
            == RootStep::Finished(Err(error)),
        event matches RootEvent::WriteBegun(context, Ok(lowest)) ==> {
            &&& after.called == before.called
            &&& after.begun == Some(context.snapshot_id)
            &&& lowest > 0 ==> {
                &&& after.pending == before.pending
                &&& after.context == before.context
                &&& step matches RootStep::Unlock(target, unlocked)
                &&& target == context
                &&& unlocked + 1 == lowest
            }
            &&& lowest == 0 ==> hands_on_changes(before, context, after, step)
        },
        event matches RootEvent::Unlocked(context) ==> {
            &&& after.called == before.called
            &&& hands_on_changes(before, context, after, step)
            &&& step is Apply ==> after.begun == before.begun
            &&& step is Finished ==> after.begun == Some(context.snapshot_id)
        },
        event matches RootEvent::Applied(Ok(context)) ==> {
            &&& after.called == before.called
            &&& after.pending == before.pending
            &&& after.context == Some(context)
            &&& after.begun == Some(context.snapshot_id)
            &&& step == RootStep::Finished(Ok(context.root_node_hash))
        },
        event matches RootEvent::Applied(Err(error)) ==> after == before && step
            == RootStep::Finished(Err(error)),
{
    if before.pending != no_changes() {
        if forall|path: Seq<u8>| !before.pending.contains_key(path) {
            assert(before.pending =~= no_changes());
        }
    }
}

/// All changes are taken out and handed on. The context is the result only if there were none.
pub open spec fn hands_on_changes(
    before: UpgradableView,
    context: TransactionContext,
    after: UpgradableView,
    step: RootStep,
) -> bool {
    &&& forall|path: Seq<u8>| !(#[trigger] after.pending.contains_key(path))
    &&& if exists|path: Seq<u8>| #[trigger] before.pending.contains_key(path) {
        &&& after.context == before.context
        &&& step matches RootStep::Apply(target, changes)
        &&& target == context
        &&& lists_all(changes@, before.pending)
    } else {
        &&& after.context == Some(context)
        &&& step == RootStep::Finished(Ok(context.root_node_hash))
    }
}

/// Where there are changes, handing them on asks for exactly these to be applied; where there are
/// none, the root is that of the context.
pub proof fn no_change_is_skipped(
    before: UpgradableView,
    context: TransactionContext,
    after: UpgradableView,
    step: RootStep,
    path: Seq<u8>,
)
    requires
        hands_on_changes(before, context, after, step),
    ensures
        !after.pending.contains_key(path),
        before.pending.contains_key(path) ==> {
            &&& step matches RootStep::Apply(target, changes)
            &&& target == context
            &&& exists|i: int|
                0 <= i < changes@.len() && (#[trigger] changes@[i]).0@ == path && changes@[i].1
                    == before.pending[path]
        },
        step matches RootStep::Finished(result) ==> result == Ok::<[u8; 32], TransactionError>(
            context.root_node_hash,
        ) && !before.pending.contains_key(path),
{
    if before.pending.contains_key(path) {
        let changes = step->Apply_1;
        listed_changes_are_exact(changes@, before.pending);
        let i = choose|i: int|
            0 <= i < changes@.len() && (#[trigger] changes@[i]).0@ == path && changes@[i].1
                == before.pending[path];
        assert(changes@[i].0@ == path && changes@[i].1 == before.pending[path]);
    }
}

/// A whole root computation, from the request on: the changes that are applied are exactly those that
/// were pending when the root was asked for, on the context that was opened, and the root is that of
/// the result.
pub proof fn whole_root_computation(
    start: UpgradableView,
    requested: (UpgradableView, RootStep),
    context: TransactionContext,
    opened: (UpgradableView, RootStep),
    lowest: u64,
    begun: (UpgradableView, RootStep),
    unlocked: (UpgradableView, RootStep),
    path: Seq<u8>,
)
    requires
        !start.called,
        start.context is None,
        root_transition(start, RootEvent::Requested, requested.0, requested.1),
        root_transition(
            requested.0,
            RootEvent::ContextOpened(context),
            opened.0,
            opened.1,
        ),
        root_transition(
            opened.0,
            RootEvent::WriteBegun(context, Ok(lowest)),
            begun.0,
            begun.1,
        ),
        if lowest > 0 {
            root_transition(begun.0, RootEvent::Unlocked(context), unlocked.0, unlocked.1)
        } else {
            unlocked == begun
        },
    ensures
        requested.1 is OpenContext,
        opened.1 == RootStep::BeginWrite(context),
        opened.0.pending == start.pending,
        unlocked.0.called,
        unlocked.0.begun == Some(context.snapshot_id),
        !unlocked.0.pending.contains_key(path),
        start.pending.contains_key(path) ==> {
            &&& unlocked.0.context is None
            &&& unlocked.1 matches RootStep::Apply(target, changes)
            &&& target == context
            &&& lists_all(changes@, start.pending)
            &&& exists|i: int|
                0 <= i < changes@.len() && (#[trigger] changes@[i]).0@ == path && changes@[i].1
                    == start.pending[path]
        },
        unlocked.1 matches RootStep::Finished(result) ==> {
            &&& result == Ok::<[u8; 32], TransactionError>(context.root_node_hash)
            &&& unlocked.0.context == Some(context)
            &&& !start.pending.contains_key(path)
        },
{
    root_events(start, RootEvent::Requested, requested.0, requested.1);
    root_events(requested.0, RootEvent::ContextOpened(context), opened.0, opened.1);
    root_events(opened.0, RootEvent::WriteBegun(context, Ok(lowest)), begun.0, begun.1);
    if lowest > 0 {
        root_events(begun.0, RootEvent::Unlocked(context), unlocked.0, unlocked.1);
        no_change_is_skipped(begun.0, context, unlocked.0, unlocked.1, path);
    } else {
        no_change_is_skipped(opened.0, context, unlocked.0, unlocked.1, path);
    }
}

/// Every event of a root computation leaves the transaction well-formed.
pub proof fn root_computation_is_wf(
    before: UpgradableView,
    event: RootEvent,
    after: UpgradableView,
    step: RootStep,
)
    requires
        before.wf(),
        before.expects(event),
        root_transition(before, event, after, step),
    ensures
        after.wf(),
        after.called,
        before.begun is Some ==> after.begun is Some,
{
}

/// A root computation that failed is not tried again: asking for the root once more is answered
/// with an error, and changes nothing.
pub proof fn failed_root_stays_failed(
    before: UpgradableView,
    event: RootEvent,
    after: UpgradableView,
    error: TransactionError,
    later: UpgradableView,
    step: RootStep,
)
    requires
        before.wf(),
        before.expects(event),
        root_transition(before, event, after, RootStep::Finished(Err(error))),
        root_transition(after, RootEvent::Requested, later, step),
    ensures
        after.called,
        !after.computed(),
        later == after,
        step == RootStep::Finished(Err(TransactionError)),
{
}

/// A root computation from the moment that the write has begun: the snapshots below the lowest one
/// in use are unlocked, then all changes are applied, and the resulting context is kept. If the
/// changes cannot be applied the root is not computed, but the write lock is still held, so that
/// aborting the transaction resets the dirty slot and releases the lock.
pub proof fn root_computation(
    start: UpgradableView,
    context: TransactionContext,
    min_snapshot_id: u64,
    begun: (UpgradableView, RootStep),
    unlocked: (UpgradableView, RootStep),
    applied: Result<TransactionContext, TransactionError>,
    end: (UpgradableView, RootStep),
)
    requires
        start.called,
        !start.computed(),
        root_transition(
            start,
            RootEvent::WriteBegun(context, Ok(min_snapshot_id)),
            begun.0,
            begun.1,
        ),
        if min_snapshot_id > 0 {
            root_transition(begun.0, RootEvent::Unlocked(context), unlocked.0, unlocked.1)
        } else {
            unlocked == begun
        },
        if start.pending == no_changes() {
            end == unlocked && applied == Ok::<TransactionContext, TransactionError>(context)
        } else {
            root_transition(unlocked.0, RootEvent::Applied(applied), end.0, end.1)
        },
    ensures
        min_snapshot_id > 0 ==> begun.1 == RootStep::Unlock(context, (min_snapshot_id - 1) as u64),
        start.pending != no_changes() ==> {
            &&& unlocked.1 matches RootStep::Apply(target, changes)
            &&& target == context
            &&& lists_all(changes@, start.pending)
        },
        end.0.called,
        end.0.pending == no_changes(),
        match applied {
            Ok(result) => {
                &&& end.0.context == Some(result)
                &&& end.0.begun == Some(result.snapshot_id)
                &&& end.1 == RootStep::Finished(Ok(result.root_node_hash))
            },
            Err(error) => {
                &&& !end.0.computed()
                &&& end.0.begun == Some(context.snapshot_id)
                &&& end.1 == RootStep::Finished(Err(error))
            },
        },
{
}

/// If the write cannot begin, the transaction keeps its changes, the root is not computed and no
/// write lock is held.
pub proof fn refused_write_keeps_changes(
    before: UpgradableView,
    context: TransactionContext,
    error: TransactionError,
    after: UpgradableView,
    step: RootStep,
)
    requires
        before.called,
        !before.computed(),
        before.begun is None,
        root_transition(before, RootEvent::WriteBegun(context, Err(error)), after, step),
    ensures
        after == before,
        !after.computed(),
        after.begun is None,
        step == RootStep::Finished(Err(error)),
{
}

} // verus!
