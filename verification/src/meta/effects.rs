//! What each operation on the metadata does to every field, and what it leaves as it is.
use vstd::prelude::*;
use crate::bytes::{zeros, zeros_are_zero};
use crate::meta::codec::{
    empty_slot_fields, hashed_slot_decode_encode, hashed_slot_encode_decode, orphan_decode_encode,
};
use crate::meta::hash::fx_hash64;
use crate::meta::laws::{crash_recovery, image_stores_commit};
use crate::meta::model::{
    empty_slot, latest, latest_given, openable, orphan_bytes, padded, recover, state_from_image,
    unused_entry, HashedSlotView, MetadataState,
};
use crate::meta::orphan::OrphanPage;

verus! {

/// All fields of the slot are zero.
pub open spec fn all_fields_zero(s: HashedSlotView) -> bool {
    &&& s.meta.snapshot_id == 0
    &&& forall|i: int| 0 <= i < 32 ==> s.meta.root_node_hash[i] == 0
    &&& s.meta.root_node_page_id == 0
    &&& s.meta.page_count == 0
    &&& s.meta.orphan_pages_len == 0
    &&& s.meta.reclaimed_orphans_len == 0
    &&& s.hash == 0
}

/// A slot is intact in two cases only: it was never written and all its fields are zero, or it
/// stores the hash of its own fixed metadata and has not reclaimed more orphans than it lists.
pub proof fn intact_slot_has_its_hash(s: HashedSlotView, computed: u64)
    requires
        s.meta.root_node_hash.len() == 32,
    ensures
        s.is_empty() <==> {
            &&& s.meta.snapshot_id == 0
            &&& forall|i: int| 0 <= i < 32 ==> s.meta.root_node_hash[i] == 0
            &&& s.meta.root_node_page_id == 0
            &&& s.meta.page_count == 0
            &&& s.meta.orphan_pages_len == 0
            &&& s.meta.reclaimed_orphans_len == 0
            &&& s.hash == 0
        },
        all_fields_zero(s) <==> s.is_empty(),
        s.intact_given(computed) && s.hash != computed ==> s.is_empty(),
        s.intact_given(computed) ==> s.meta.reclaimed_orphans_len <= s.meta.orphan_pages_len,
        s.is_empty() ==> s.intact_given(computed),
        s.hash == computed && s.meta.reclaimed_orphans_len <= s.meta.orphan_pages_len
            ==> s.intact_given(computed),
        s.intact() && s.hash != fx_hash64(s.meta.bytes()) ==> s.is_empty(),
        s.intact() ==> s.meta.reclaimed_orphans_len <= s.meta.orphan_pages_len,
        s.is_empty() ==> s.intact(),
        s.hash == fx_hash64(s.meta.bytes()) && s.meta.reclaimed_orphans_len
            <= s.meta.orphan_pages_len ==> s.intact(),
        s.meta.valid(),
        s.meta.ordered() <==> s.meta.reclaimed_orphans_len <= s.meta.orphan_pages_len,
        s.meta.orphans_count() == s.meta.orphan_pages_len - s.meta.reclaimed_orphans_len,
{
    empty_slot_fields(s);
    zeros_are_zero(32);
    if forall|i: int| 0 <= i < 32 ==> s.meta.root_node_hash[i] == 0 {
        assert(s.meta.root_node_hash =~= zeros(32));
    }
}

/// Hashing a slot stores the hash of its fixed metadata, which stays as it is. The slot is then
/// intact, unless it has reclaimed more orphans than it lists.
pub proof fn hashing_changes_only_the_hash(s: HashedSlotView)
    requires
        s.meta.root_node_hash.len() == 32,
    ensures
        s.hashed().hash == fx_hash64(s.meta.bytes()),
        s.hashed().meta.snapshot_id == s.meta.snapshot_id,
        s.hashed().meta.root_node_hash == s.meta.root_node_hash,
        s.hashed().meta.root_node_page_id == s.meta.root_node_page_id,
        s.hashed().meta.page_count == s.meta.page_count,
        s.hashed().meta.orphan_pages_len == s.meta.orphan_pages_len,
        s.hashed().meta.reclaimed_orphans_len == s.meta.reclaimed_orphans_len,
        s.meta.reclaimed_orphans_len <= s.meta.orphan_pages_len ==> s.hashed().intact(),
        s.hashed().hashed() == s.hashed(),
{
}

/// The slot that follows another one differs from it by its snapshot ID alone.
pub proof fn successor_changes_only_the_snapshot(s: HashedSlotView)
    requires
        s.meta.snapshot_id < u64::MAX,
    ensures
        s.successor().meta.snapshot_id == s.meta.snapshot_id + 1,
        s.successor().meta.root_node_hash == s.meta.root_node_hash,
        s.successor().meta.root_node_page_id == s.meta.root_node_page_id,
        s.successor().meta.page_count == s.meta.page_count,
        s.successor().meta.orphan_pages_len == s.meta.orphan_pages_len,
        s.successor().meta.reclaimed_orphans_len == s.meta.reclaimed_orphans_len,
        s.successor().hash == s.hash,
{
}

/// Between two slots, a slot that is not intact is never chosen, the only intact one always is, and
/// of two intact ones the one with the higher snapshot ID is. Two intact slots with the same snapshot
/// ID must be the same.
pub proof fn choice_between_slots(
    slot0: HashedSlotView,
    slot1: HashedSlotView,
    hash0: u64,
    hash1: u64,
)
    requires
        slot0.meta.root_node_hash.len() == 32,
        slot1.meta.root_node_hash.len() == 32,
    ensures
        latest(slot0, slot1) == latest_given(
            slot0,
            slot1,
            fx_hash64(slot0.meta.bytes()),
            fx_hash64(slot1.meta.bytes()),
        ),
        !slot0.intact_given(hash0) && !slot1.intact_given(hash1) ==> latest_given(
            slot0,
            slot1,
            hash0,
            hash1,
        ) is None,
        slot0.intact_given(hash0) && !slot1.intact_given(hash1) ==> latest_given(
            slot0,
            slot1,
            hash0,
            hash1,
        ) == Some(0int),
        !slot0.intact_given(hash0) && slot1.intact_given(hash1) ==> latest_given(
            slot0,
            slot1,
            hash0,
            hash1,
        ) == Some(1int),
        slot0.intact_given(hash0) && slot1.intact_given(hash1) ==> latest_given(
            slot0,
            slot1,
            hash0,
            hash1,
        ) == if slot0.meta.snapshot_id > slot1.meta.snapshot_id || slot0 == slot1 {
            Some(0int)
        } else if slot0.meta.snapshot_id < slot1.meta.snapshot_id {
            Some(1int)
        } else {
            None
        },
{
    empty_slot_fields(slot0);
    empty_slot_fields(slot1);
}

/// The first slot is active if the index is zero, otherwise the second one is. The other slot is
/// dirty, and is the only thing that is replaced by another dirty slot.
pub proof fn slots_by_index(state: MetadataState, dirty: HashedSlotView)
    ensures
        state.active == 0 ==> state.active_slot() == state.slot0 && state.dirty_slot()
            == state.slot1,
        state.active != 0 ==> state.active_slot() == state.slot1 && state.dirty_slot()
            == state.slot0,
        state.with_dirty(dirty).active == state.active,
        state.with_dirty(dirty).list == state.list,
        state.with_dirty(dirty).slot0 == if state.active == 0 {
            state.slot0
        } else {
            dirty
        },
        state.with_dirty(dirty).slot1 == if state.active == 0 {
            dirty
        } else {
            state.slot1
        },
{
}

/// What the conditions on the orphan page list say of the counters.
pub proof fn list_conditions(state: MetadataState, orphan: OrphanPage, threshold: u64)
    ensures
        ({
            let d = state.dirty_slot().meta;
            let a = state.active_slot().meta;
            let n = state.list.len();
            &&& state.valid() <==> state.slot0.meta.root_node_hash.len() == 32
                && state.slot1.meta.root_node_hash.len() == 32
            &&& state.wf() <==> (state.active == 0 || state.active == 1) && 128 + 16 * n
                <= usize::MAX
            &&& state.in_bounds() <==> d.reclaimed_orphans_len <= d.orphan_pages_len <= n
            &&& state.committed_in_bounds() <==> a.reclaimed_orphans_len <= a.orphan_pages_len <= n
            &&& state.is_full() <==> d.orphan_pages_len >= n
            &&& state.compacts() <==> d.orphan_pages_len - d.reclaimed_orphans_len
                <= a.reclaimed_orphans_len
            &&& state.can_pop(threshold) <==> d.reclaimed_orphans_len < d.orphan_pages_len
                && state.list[d.reclaimed_orphans_len as int].orphaned_at <= threshold
            &&& state.first_orphan() == state.list[d.reclaimed_orphans_len as int]
            &&& state.in_order(orphan) <==> (d.orphan_pages_len == 0 || d.orphan_pages_len >= n
                || state.list[d.orphan_pages_len - 1].orphaned_at <= orphan.orphaned_at)
        }),
{
}

/// The orphans are the list entries from the first that was not reclaimed to the last that is
/// counted, in the order of the list.
pub proof fn orphans_are_list_entries(state: MetadataState)
    ensures
        state.in_bounds() ==> {
            let d = state.dirty_slot().meta;
            &&& state.orphans().len() == d.orphan_pages_len - d.reclaimed_orphans_len
            &&& forall|i: int|
                0 <= i < state.orphans().len() ==> #[trigger] state.orphans()[i] == state.list[
                d.reclaimed_orphans_len + i]
        },
        state.committed_in_bounds() ==> {
            let a = state.active_slot().meta;
            &&& state.committed_orphans().len() == a.orphan_pages_len - a.reclaimed_orphans_len
            &&& forall|i: int|
                0 <= i < state.committed_orphans().len() ==> #[trigger] state.committed_orphans()[i]
                    == state.list[a.reclaimed_orphans_len + i]
        },
{
}

/// Populating the dirty slot copies every field of the active slot, but for the snapshot ID, which
/// is the next one. The active slot and the list stay.
pub proof fn populating_copies_active_slot(state: MetadataState)
    requires
        state.active_slot().meta.snapshot_id < u64::MAX,
    ensures
        ({
            let after = state.populate_dirty_slot();
            let a = state.active_slot();
            &&& after.active == state.active
            &&& after.list == state.list
            &&& after.active_slot() == a
            &&& after.dirty_slot().meta.snapshot_id == a.meta.snapshot_id + 1
            &&& after.dirty_slot().meta.root_node_hash == a.meta.root_node_hash
            &&& after.dirty_slot().meta.root_node_page_id == a.meta.root_node_page_id
            &&& after.dirty_slot().meta.page_count == a.meta.page_count
            &&& after.dirty_slot().meta.orphan_pages_len == a.meta.orphan_pages_len
            &&& after.dirty_slot().meta.reclaimed_orphans_len == a.meta.reclaimed_orphans_len
            &&& after.dirty_slot().hash == a.hash
        }),
{
}

/// Pushing an orphan writes one list entry and counts it. Nothing else changes.
pub proof fn push_writes_one_entry(state: MetadataState, orphan: OrphanPage)
    requires
        state.dirty_slot().meta.orphan_pages_len < state.list.len(),
        state.dirty_slot().meta.orphan_pages_len < u32::MAX,
    ensures
        ({
            let after = state.push(orphan);
            let d = state.dirty_slot();
            let len = d.meta.orphan_pages_len;
            &&& after.active == state.active
            &&& after.active_slot() == state.active_slot()
            &&& after.list.len() == state.list.len()
            &&& after.list[len as int] == orphan
            &&& forall|i: int|
                0 <= i < state.list.len() && i != len ==> #[trigger] after.list[i] == state.list[i]
            &&& after.dirty_slot().meta.orphan_pages_len == len + 1
            &&& after.dirty_slot().meta.reclaimed_orphans_len == d.meta.reclaimed_orphans_len
            &&& after.dirty_slot().meta.snapshot_id == d.meta.snapshot_id
            &&& after.dirty_slot().meta.root_node_hash == d.meta.root_node_hash
            &&& after.dirty_slot().meta.root_node_page_id == d.meta.root_node_page_id
            &&& after.dirty_slot().meta.page_count == d.meta.page_count
            &&& after.dirty_slot().hash == d.hash
        }),
{
}

/// Reclaiming an orphan counts it as reclaimed. Nothing else changes, and no list entry does.
pub proof fn pop_claims_one_entry(state: MetadataState)
    requires
        state.dirty_slot().meta.reclaimed_orphans_len < state.dirty_slot().meta.orphan_pages_len,
    ensures
        ({
            let after = state.pop();
            let d = state.dirty_slot();
            &&& after.active == state.active
            &&& after.active_slot() == state.active_slot()
            &&& after.list == state.list
            &&& after.dirty_slot().meta.reclaimed_orphans_len == d.meta.reclaimed_orphans_len + 1
            &&& after.dirty_slot().meta.orphan_pages_len == d.meta.orphan_pages_len
            &&& after.dirty_slot().meta.snapshot_id == d.meta.snapshot_id
            &&& after.dirty_slot().meta.root_node_hash == d.meta.root_node_hash
            &&& after.dirty_slot().meta.root_node_page_id == d.meta.root_node_page_id
            &&& after.dirty_slot().meta.page_count == d.meta.page_count
            &&& after.dirty_slot().hash == d.hash
        }),
{
}

/// Growing doubles the stored size. Both slots and all list entries stay, and the new entries are
/// zero.
pub proof fn growth_adds_zero_entries(state: MetadataState)
    ensures
        ({
            let after = state.grow();
            &&& after.slot0 == state.slot0
            &&& after.slot1 == state.slot1
            &&& after.active == state.active
            &&& 128 + 16 * after.list.len() == 2 * (128 + 16 * state.list.len())
            &&& forall|i: int|
                0 <= i < state.list.len() ==> #[trigger] after.list[i] == state.list[i]
            &&& forall|i: int|
                state.list.len() <= i < after.list.len() ==> (#[trigger] after.list[i]).page_id == 0
                    && after.list[i].padding == 0 && after.list[i].orphaned_at == 0
        }),
{
}

/// Compaction happens exactly if there are no more orphans than were reclaimed before the last
/// commit. It moves the orphans to the start of the list, in their order, and counts none as
/// reclaimed. No other entry and no other field changes.
pub proof fn compaction_moves_orphans(state: MetadataState)
    requires
        state.dirty_slot().meta.ordered(),
        state.compacts() ==> state.in_bounds(),
    ensures
        ({
            let after = state.compact_orphans();
            let d = state.dirty_slot();
            let count = d.meta.orphan_pages_len - d.meta.reclaimed_orphans_len;
            let moves = count <= state.active_slot().meta.reclaimed_orphans_len;
            &&& !moves ==> after == state
            &&& after.active == state.active
            &&& after.active_slot() == state.active_slot()
            &&& after.list.len() == state.list.len()
            &&& moves ==> {
                &&& after.dirty_slot().meta.orphan_pages_len == count
                &&& after.dirty_slot().meta.reclaimed_orphans_len == 0
                &&& forall|i: int|
                    0 <= i < count ==> #[trigger] after.list[i] == state.list[
                    d.meta.reclaimed_orphans_len + i]
                &&& forall|i: int|
                    count <= i < state.list.len() ==> #[trigger] after.list[i] == state.list[i]
            }
            &&& after.dirty_slot().meta.snapshot_id == d.meta.snapshot_id
            &&& after.dirty_slot().meta.root_node_hash == d.meta.root_node_hash
            &&& after.dirty_slot().meta.root_node_page_id == d.meta.root_node_page_id
            &&& after.dirty_slot().meta.page_count == d.meta.page_count
            &&& after.dirty_slot().hash == d.hash
        }),
{
}

/// Preparing a commit compacts the list and hashes the dirty slot. Nothing else changes.
pub proof fn preparing_hashes_dirty_slot(state: MetadataState)
    requires
        state.dirty_slot().meta.ordered(),
        state.compacts() ==> state.in_bounds(),
    ensures
        ({
            let after = state.begin_commit();
            let d = state.dirty_slot();
            let compacted = state.compact_orphans().dirty_slot();
            &&& after.active == state.active
            &&& after.active_slot() == state.active_slot()
            &&& after.list == state.compact_orphans().list
            &&& after.dirty_slot().hash == fx_hash64(after.dirty_slot().meta.bytes())
            &&& after.dirty_slot().meta.orphan_pages_len == compacted.meta.orphan_pages_len
            &&& after.dirty_slot().meta.reclaimed_orphans_len
                == compacted.meta.reclaimed_orphans_len
            &&& after.dirty_slot().meta.snapshot_id == d.meta.snapshot_id
            &&& after.dirty_slot().meta.root_node_hash == d.meta.root_node_hash
            &&& after.dirty_slot().meta.root_node_page_id == d.meta.root_node_page_id
            &&& after.dirty_slot().meta.page_count == d.meta.page_count
        }),
{
}

/// Finishing a commit makes the dirty slot active as it is, and the other slot its copy under the
/// next snapshot ID. The list stays.
pub proof fn finishing_swaps_slots(state: MetadataState)
    requires
        0 <= state.active < 2,
        state.dirty_slot().meta.snapshot_id < u64::MAX,
    ensures
        ({
            let after = state.finish_commit();
            let d = state.dirty_slot();
            &&& after.active == 1 - state.active
            &&& after.list == state.list
            &&& after.active_slot() == d
            &&& after.dirty_slot().meta.snapshot_id == d.meta.snapshot_id + 1
            &&& after.dirty_slot().meta.root_node_hash == d.meta.root_node_hash
            &&& after.dirty_slot().meta.root_node_page_id == d.meta.root_node_page_id
            &&& after.dirty_slot().meta.page_count == d.meta.page_count
            &&& after.dirty_slot().meta.orphan_pages_len == d.meta.orphan_pages_len
            &&& after.dirty_slot().meta.reclaimed_orphans_len == d.meta.reclaimed_orphans_len
            &&& after.dirty_slot().hash == d.hash
        }),
{
}

/// What a commit saves is what the dirty slot held, and what the next commit saves if nothing is
/// changed in between.
pub proof fn commit_saves_dirty_slot(state: MetadataState)
    requires
        0 <= state.active < 2,
        state.in_bounds(),
        state.dirty_slot().meta.snapshot_id + 1 < u64::MAX,
    ensures
        ({
            let d = state.dirty_slot().meta;
            let once = state.commit();
            let twice = once.commit();
            &&& once == state.begin_commit().finish_commit()
            &&& once.active != state.active
            &&& once.active_slot() == state.begin_commit().dirty_slot()
            &&& once.active_slot().hash == fx_hash64(once.active_slot().meta.bytes())
            &&& once.active_slot().meta.snapshot_id == d.snapshot_id
            &&& once.active_slot().meta.root_node_hash == d.root_node_hash
            &&& once.active_slot().meta.root_node_page_id == d.root_node_page_id
            &&& once.active_slot().meta.page_count == d.page_count
            &&& twice.active == state.active
            &&& twice.active_slot().hash == fx_hash64(twice.active_slot().meta.bytes())
            &&& twice.active_slot().meta.snapshot_id == d.snapshot_id + 1
            &&& twice.active_slot().meta.root_node_hash == d.root_node_hash
            &&& twice.active_slot().meta.root_node_page_id == d.root_node_page_id
            &&& twice.active_slot().meta.page_count == d.page_count
            &&& forall|i: int|
                0 <= i < d.orphan_pages_len - d.reclaimed_orphans_len ==> #[trigger] state.list[
                d.reclaimed_orphans_len + i] == once.list[
                once.active_slot().meta.reclaimed_orphans_len + i]
            &&& once.active_slot().meta.orphan_pages_len
                - once.active_slot().meta.reclaimed_orphans_len == d.orphan_pages_len
                - d.reclaimed_orphans_len
        }),
{
    preparing_hashes_dirty_slot(state);
    compaction_moves_orphans(state);
    finishing_swaps_slots(state.begin_commit());
    preparing_hashes_dirty_slot(state.commit());
    compaction_moves_orphans(state.commit());
    finishing_swaps_slots(state.commit().begin_commit());
}

/// Erasing the metadata makes everything zero but the snapshot ID of the dirty slot, which is one.
/// The size is the minimum one, and the same slot stays active.
pub proof fn wiping_leaves_zeros(state: MetadataState)
    ensures
        ({
            let after = state.wipe();
            &&& after.active == state.active
            &&& after.active_slot().meta.root_node_hash.len() == 32
            &&& all_fields_zero(after.active_slot())
            &&& after.dirty_slot().meta.snapshot_id == 1
            &&& after.dirty_slot().meta.root_node_hash == after.active_slot().meta.root_node_hash
            &&& after.dirty_slot().meta.root_node_page_id == 0
            &&& after.dirty_slot().meta.page_count == 0
            &&& after.dirty_slot().meta.orphan_pages_len == 0
            &&& after.dirty_slot().meta.reclaimed_orphans_len == 0
            &&& after.dirty_slot().hash == 0
            &&& 128 + 16 * after.list.len() == 4096
            &&& forall|i: int|
                0 <= i < after.list.len() ==> (#[trigger] after.list[i]).page_id == 0
                    && after.list[i].padding == 0 && after.list[i].orphaned_at == 0
        }),
{
}

/// A file that is too short is extended by zeros to 4096 bytes. Its contents stay.
pub proof fn padding_adds_zeros(contents: Seq<u8>)
    ensures
        padded(contents).len() == if contents.len() < 4096 {
            4096
        } else {
            contents.len()
        },
        forall|i: int| 0 <= i < contents.len() ==> #[trigger] padded(contents)[i] == contents[i],
        forall|i: int|
            contents.len() <= i < padded(contents).len() ==> #[trigger] padded(contents)[i] == 0,
{
}

/// Opening a file that stores `slot0` and `slot1`: it is corrupted exactly if neither slot is intact,
/// or if both are, under the same snapshot ID, but differ. Otherwise an intact slot becomes active,
/// the one with the higher snapshot ID if both are intact. The dirty slot is its copy under the next
/// snapshot ID, and the list is the one that is stored.
pub proof fn opening_reads_file(contents: Seq<u8>, slot0: HashedSlotView, slot1: HashedSlotView)
    requires
        slot0.meta.root_node_hash.len() == 32,
        slot1.meta.root_node_hash.len() == 32,
        padded(contents).subrange(0, 64) == slot0.bytes(),
        padded(contents).subrange(64, 128) == slot1.bytes(),
    ensures
        recover(contents) is None <==> {
            ||| !slot0.intact() && !slot1.intact()
            ||| {
                &&& slot0.intact()
                &&& slot1.intact()
                &&& slot0.meta.snapshot_id == slot1.meta.snapshot_id
                &&& slot0 != slot1
            }
        },
        recover(contents) matches Some(opened) ==> {
            let a = opened.active_slot();
            let d = opened.dirty_slot();
            &&& opened.active == 0 || opened.active == 1
            &&& opened.active == 0 ==> {
                &&& a == slot0
                &&& slot0.intact()
                &&& slot1.intact() ==> slot0.meta.snapshot_id >= slot1.meta.snapshot_id
            }
            &&& opened.active == 1 ==> {
                &&& a == slot1
                &&& slot1.intact()
                &&& slot0.intact() ==> slot0.meta.snapshot_id < slot1.meta.snapshot_id
            }
            &&& a.meta.snapshot_id < u64::MAX ==> d.meta.snapshot_id == a.meta.snapshot_id + 1
            &&& d.meta.root_node_hash == a.meta.root_node_hash
            &&& d.meta.root_node_page_id == a.meta.root_node_page_id
            &&& d.meta.page_count == a.meta.page_count
            &&& d.meta.orphan_pages_len == a.meta.orphan_pages_len
            &&& d.meta.reclaimed_orphans_len == a.meta.reclaimed_orphans_len
            &&& d.hash == a.hash
            &&& opened.list.len() == (padded(contents).len() - 128) / 16
            &&& forall|i: int|
                0 <= i < opened.list.len() ==> orphan_bytes(#[trigger] opened.list[i]) == padded(
                    contents,
                ).subrange(128 + 16 * i, 144 + 16 * i)
            &&& openable(contents) <==> (contents.len() < 4096 || contents.len() % 16 == 0)
                && a.meta.snapshot_id < u64::MAX
        },
        recover(contents) is None ==> openable(contents),
{
    let image = padded(contents);
    hashed_slot_encode_decode(slot0);
    hashed_slot_encode_decode(slot1);
    choice_between_slots(
        slot0,
        slot1,
        fx_hash64(slot0.meta.bytes()),
        fx_hash64(slot1.meta.bytes()),
    );
    if recover(contents) is Some {
        let opened = recover(contents)->0;
        assert forall|i: int| 0 <= i < opened.list.len() implies orphan_bytes(
            #[trigger] opened.list[i],
        ) == image.subrange(128 + 16 * i, 144 + 16 * i) by {
            let entry = image.skip(128).subrange(16 * i, 16 * i + 16);
            orphan_decode_encode(entry);
            assert(entry =~= image.subrange(128 + 16 * i, 144 + 16 * i));
        }
    }
}

/// Every file stores two slots.
pub proof fn file_stores_slots(contents: Seq<u8>)
    ensures
        exists|slot0: HashedSlotView, slot1: HashedSlotView|
            slot0.meta.root_node_hash.len() == 32 && slot1.meta.root_node_hash.len() == 32
                && padded(contents).subrange(0, 64) == #[trigger] slot0.bytes() && padded(
                contents,
            ).subrange(64, 128) == #[trigger] slot1.bytes(),
{
    let stored = state_from_image(padded(contents), 0);
    hashed_slot_decode_encode(padded(contents).subrange(0, 64));
    hashed_slot_decode_encode(padded(contents).subrange(64, 128));
    assert(stored.slot0.bytes() == padded(contents).subrange(0, 64));
    assert(stored.slot1.bytes() == padded(contents).subrange(64, 128));
}

/// A slot that was written and whose hash is not that of its contents is never made active, whatever
/// its snapshot ID is.
pub proof fn stale_slot_is_never_opened(
    contents: Seq<u8>,
    slot0: HashedSlotView,
    slot1: HashedSlotView,
)
    requires
        slot0.meta.root_node_hash.len() == 32,
        slot1.meta.root_node_hash.len() == 32,
        padded(contents).subrange(0, 64) == slot0.bytes(),
        padded(contents).subrange(64, 128) == slot1.bytes(),
    ensures
        slot0.hash != fx_hash64(slot0.meta.bytes()) && slot0.meta.snapshot_id != 0 ==> (recover(
            contents,
        ) matches Some(opened) ==> opened.active_slot() == slot1 && opened.active == 1),
        slot1.hash != fx_hash64(slot1.meta.bytes()) && slot1.meta.snapshot_id != 0 ==> (recover(
            contents,
        ) matches Some(opened) ==> opened.active_slot() == slot0 && opened.active == 0),
{
    intact_slot_has_its_hash(slot0, 0);
    intact_slot_has_its_hash(slot1, 0);
    opening_reads_file(contents, slot0, slot1);
}

/// If the metadata is stored while the dirty slot has a hash that is not that of its contents, as it
/// has between a change and the next commit, then opening the file gives the active slot, and the
/// orphans that it counts.
pub proof fn stale_changes_are_lost(state: MetadataState)
    requires
        state.active == 0 || state.active == 1,
        state.slot0.meta.root_node_hash.len() == 32,
        state.slot1.meta.root_node_hash.len() == 32,
        state.active_slot().hash == fx_hash64(state.active_slot().meta.bytes()) || all_fields_zero(
            state.active_slot(),
        ),
        state.active_slot().meta.reclaimed_orphans_len
            <= state.active_slot().meta.orphan_pages_len <= state.list.len(),
        state.dirty_slot().meta.snapshot_id != 0,
        state.dirty_slot().hash != fx_hash64(state.dirty_slot().meta.bytes()),
    ensures
        recover(state.image()) is Some,
        recover(state.image()) matches Some(opened) ==> {
            let a = state.active_slot().meta;
            &&& opened.active == state.active
            &&& opened.active_slot() == state.active_slot()
            &&& opened.dirty_slot().meta.orphan_pages_len == a.orphan_pages_len
            &&& opened.dirty_slot().meta.reclaimed_orphans_len == a.reclaimed_orphans_len
            &&& opened.orphans().len() == a.orphan_pages_len - a.reclaimed_orphans_len
            &&& forall|i: int|
                0 <= i < opened.orphans().len() ==> #[trigger] opened.orphans()[i] == state.list[
                a.reclaimed_orphans_len + i]
        },
{
    intact_slot_has_its_hash(state.active_slot(), 0);
    intact_slot_has_its_hash(state.dirty_slot(), 0);
    image_stores_commit(state);
    crash_recovery(state, state.image());
    let stored = state_from_image(padded(state.image()), state.active);
    hashed_slot_decode_encode(padded(state.image()).subrange(0, 64));
    hashed_slot_decode_encode(padded(state.image()).subrange(64, 128));
    stale_slot_is_never_opened(state.image(), stored.slot0, stored.slot1);
    orphans_are_list_entries(state);
}

/// A slot that was never written has only zeros, and so has an unused list entry.
pub proof fn unused_space_is_zero()
    ensures
        all_fields_zero(empty_slot()),
        empty_slot().meta.root_node_hash.len() == 32,
        unused_entry().page_id == 0,
        unused_entry().padding == 0,
        unused_entry().orphaned_at == 0,
{
}

} // verus!
