//! What the metadata promises across operations, commits and crashes.
use vstd::prelude::*;
use crate::bytes::{u32_zero_bytes, u64_zero_bytes, zeros};
use crate::meta::codec::{
    empty_slot_fields, hashed_slot_decode_encode, hashed_slot_encode_decode, image_encode_decode,
    image_layout, orphan_encode_decode,
};
use crate::meta::model::{
    empty_slot, latest, latest_in, list_from_bytes, orphan_bytes, padded, recover,
    state_from_image, unused_entry, whole_entries, HashedSlotView, MetadataState, SlotView,
    SIZE_MIN,
};
use crate::meta::orphan::OrphanPage;

verus! {

impl HashedSlotView {
    /// Between this slot and `other`, opening a file prefers `other`, or there is nothing to
    /// choose.
    pub open spec fn yields_to(self, other: HashedSlotView) -> bool {
        ||| !self.intact()
        ||| self.meta.snapshot_id < other.meta.snapshot_id
        ||| self == other
    }
}

impl MetadataState {
    /// The counters of the active slot describe a part of the list.
    pub open spec fn committed_in_bounds(self) -> bool {
        &&& self.active_slot().meta.ordered()
        &&& self.active_slot().meta.orphan_pages_len <= self.list.len()
    }

    /// The last committed state can be told from the stored form, and no operation on the orphan
    /// page list overwrites an orphan of that state.
    pub open spec fn crash_safe(self) -> bool {
        &&& self.valid()
        &&& self.wf()
        &&& self.in_bounds()
        &&& self.committed_in_bounds()
        &&& self.active_slot().intact()
        &&& self.active_slot().meta.orphan_pages_len <= self.dirty_slot().meta.orphan_pages_len
    }

    /// `after` has the same last committed state as this.
    pub open spec fn same_commit(self, after: MetadataState) -> bool {
        &&& after.active == self.active
        &&& after.active_slot() == self.active_slot()
        &&& after.committed_in_bounds()
        &&& after.committed_orphans() == self.committed_orphans()
    }

    /// The orphans are listed in the order in which they were orphaned.
    pub open spec fn sorted(self) -> bool {
        forall|i: int, j: int|
            0 <= i <= j < self.orphans().len() ==> (#[trigger] self.orphans()[i]).orphaned_at <= (
            #[trigger] self.orphans()[j]).orphaned_at
    }
}

/// A file with these contents holds the last committed state of `state`: the active slot, and in
/// the list the orphans as of the last commit. The rest of the file is arbitrary.
pub open spec fn stores_commit(contents: Seq<u8>, state: MetadataState) -> bool {
    &&& whole_entries(contents.len())
    &&& state.same_commit(state_from_image(padded(contents), state.active))
}

/// Each byte of the contents is that of one or the other image.
pub open spec fn mixes(contents: Seq<u8>, one: Seq<u8>, other: Seq<u8>) -> bool {
    &&& contents.len() == one.len()
    &&& forall|i: int|
        0 <= i < contents.len() ==> (#[trigger] contents[i] == one[i] || contents[i] == other[i])
}

/// The slot that is not active, in a file with these contents.
pub open spec fn stored_dirty_slot(contents: Seq<u8>, active: int) -> HashedSlotView {
    state_from_image(padded(contents), active).dirty_slot()
}

/// An orphan that is pushed becomes the last one. Nothing that was listed before is overwritten.
pub proof fn push_appends(state: MetadataState, orphan: OrphanPage)
    requires
        state.in_bounds(),
        !state.is_full(),
        state.dirty_slot().meta.orphan_pages_len < u32::MAX,
    ensures
        state.push(orphan).in_bounds(),
        state.push(orphan).orphans() == state.orphans().push(orphan),
        forall|i: int|
            0 <= i < state.dirty_slot().meta.orphan_pages_len ==> #[trigger] state.push(
                orphan,
            ).list[i] == state.list[i],
{
    assert(state.push(orphan).orphans() =~= state.orphans().push(orphan));
}

/// The orphan that is reclaimed is the first one, and the others stay.
pub proof fn pop_takes_first(state: MetadataState)
    requires
        state.in_bounds(),
        state.orphans().len() > 0,
    ensures
        state.first_orphan() == state.orphans()[0],
        state.pop().in_bounds(),
        state.pop().orphans() == state.orphans().drop_first(),
{
    assert(state.pop().orphans() =~= state.orphans().drop_first());
}

/// Growing adds capacity and changes no orphan.
pub proof fn grow_keeps_orphans(state: MetadataState)
    requires
        state.in_bounds(),
    ensures
        state.grow().in_bounds(),
        !state.grow().is_full(),
        state.grow().image().len() == state.image().len() + 128 + 16 * state.list.len(),
        state.grow().orphans() == state.orphans(),
{
    assert(state.grow().orphans() =~= state.orphans());
    assert(state.grow().slot0 == state.slot0 && state.grow().slot1 == state.slot1);
}

/// Compaction changes no orphan.
pub proof fn compaction_keeps_orphans(state: MetadataState)
    requires
        state.in_bounds(),
    ensures
        state.compact_orphans().in_bounds(),
        state.compact_orphans().orphans() == state.orphans(),
{
    assert(state.compact_orphans().orphans() =~= state.orphans());
}

/// If the orphans are listed in order and none is reclaimed, then none was orphaned at the
/// threshold or earlier.
pub proof fn pop_is_complete_if_sorted(state: MetadataState, threshold: u64)
    requires
        state.in_bounds(),
        state.sorted(),
        !state.can_pop(threshold),
    ensures
        forall|i: int|
            0 <= i < state.orphans().len() ==> (#[trigger] state.orphans()[i]).orphaned_at
                > threshold,
{
    if state.orphans().len() > 0 {
        assert(state.first_orphan() == state.orphans()[0]);
    }
}

/// The order is kept by pushing an orphan that is not older than the last one, by reclaiming an
/// orphan, by growing and by compaction. Where there is room, an orphan that is in order is not
/// older than the last one.
pub proof fn order_is_kept(state: MetadataState, orphan: OrphanPage)
    requires
        state.in_bounds(),
        state.sorted(),
    ensures
        !state.is_full() && state.dirty_slot().meta.orphan_pages_len < u32::MAX && (
        state.orphans().len() > 0 ==> state.orphans().last().orphaned_at <= orphan.orphaned_at)
            ==> state.push(orphan).sorted(),
        !state.is_full() && state.in_order(orphan) && state.orphans().len() > 0
            ==> state.orphans().last().orphaned_at <= orphan.orphaned_at,
        state.grow().sorted(),
        state.orphans().len() > 0 ==> state.pop().sorted(),
        state.compact_orphans().sorted(),
{
    if !state.is_full() && state.dirty_slot().meta.orphan_pages_len < u32::MAX {
        push_appends(state, orphan);
    }
    if state.orphans().len() > 0 {
        pop_takes_first(state);
    }
    grow_keeps_orphans(state);
    compaction_keeps_orphans(state);
}

/// Between commits the last committed state stays as it is, and stays safe: whatever happens to
/// the dirty slot but its counters, and whichever orphans are pushed or reclaimed.
pub proof fn changes_keep_commit(state: MetadataState, orphan: OrphanPage, dirty: HashedSlotView)
    requires
        state.crash_safe(),
    ensures
        !state.is_full() && state.dirty_slot().meta.orphan_pages_len < u32::MAX ==> {
            &&& state.same_commit(state.push(orphan))
            &&& state.push(orphan).crash_safe()
        },
        state.orphans().len() > 0 ==> {
            &&& state.same_commit(state.pop())
            &&& state.pop().crash_safe()
        },
        state.same_commit(state.grow()),
        state.grow().wf() ==> state.grow().crash_safe(),
        state.same_commit(state.populate_dirty_slot()),
        state.populate_dirty_slot().crash_safe(),
        dirty.meta.valid() && dirty.meta.orphan_pages_len
            == state.dirty_slot().meta.orphan_pages_len && dirty.meta.reclaimed_orphans_len
            == state.dirty_slot().meta.reclaimed_orphans_len ==> {
            &&& state.same_commit(state.with_dirty(dirty))
            &&& state.with_dirty(dirty).crash_safe()
        },
{
    if !state.is_full() {
        assert(state.push(orphan).committed_orphans() =~= state.committed_orphans());
    }
    assert(state.pop().committed_orphans() =~= state.committed_orphans());
    assert(state.grow().committed_orphans() =~= state.committed_orphans());
}

/// What is written in a commit before the slots trade places overwrites nothing of the last
/// committed state.
pub proof fn begin_commit_keeps_commit(state: MetadataState)
    requires
        state.crash_safe(),
    ensures
        state.same_commit(state.begin_commit()),
{
    assert(state.begin_commit().committed_orphans() =~= state.committed_orphans());
}

/// A commit makes the dirty slot active, changes nothing that it holds but its hash and its
/// counters, and keeps the orphans. The new dirty slot has the same contents under the next
/// snapshot ID.
pub proof fn commit_promotes_dirty_slot(state: MetadataState)
    requires
        state.valid(),
        state.wf(),
        state.in_bounds(),
        state.dirty_slot().meta.snapshot_id < u64::MAX,
    ensures
        state.commit().crash_safe(),
        state.commit().active == 1 - state.active,
        state.commit().active_slot().meta == (SlotView {
            orphan_pages_len: state.commit().active_slot().meta.orphan_pages_len,
            reclaimed_orphans_len: state.commit().active_slot().meta.reclaimed_orphans_len,
            ..state.dirty_slot().meta
        }),
        state.commit().active_slot().intact(),
        state.commit().orphans() == state.orphans(),
        state.commit().committed_orphans() == state.orphans(),
        state.commit().dirty_slot() == state.commit().active_slot().successor(),
        state.commit().dirty_slot().meta.snapshot_id == state.dirty_slot().meta.snapshot_id + 1,
{
    compaction_keeps_orphans(state);
    let committed = state.commit();
    assert(committed.orphans() =~= state.compact_orphans().orphans());
    assert(committed.committed_orphans() =~= state.compact_orphans().orphans());
}

/// Discarding the changes brings back the orphans as of the last commit. Doing so twice is the same
/// as once.
pub proof fn reset_discards_changes(state: MetadataState)
    requires
        state.committed_in_bounds(),
        state.active_slot().meta.snapshot_id < u64::MAX,
    ensures
        state.populate_dirty_slot().orphans() == state.committed_orphans(),
        state.populate_dirty_slot().active_slot() == state.active_slot(),
        state.populate_dirty_slot().dirty_slot().meta.snapshot_id
            == state.active_slot().meta.snapshot_id + 1,
        state.populate_dirty_slot().populate_dirty_slot() == state.populate_dirty_slot(),
{
}

/// A slot that is not intact is never made active.
pub proof fn latest_is_intact(slot0: HashedSlotView, slot1: HashedSlotView)
    ensures
        latest(slot0, slot1) matches Some(index) ==> {
            &&& index == 0 || index == 1
            &&& index == 0 ==> slot0.intact()
            &&& index == 1 ==> slot1.intact()
        },
{
}

/// Where both slots are intact, the one with the higher snapshot ID is made active.
pub proof fn latest_has_highest_snapshot(slot0: HashedSlotView, slot1: HashedSlotView)
    requires
        slot0.meta.valid(),
        slot1.meta.valid(),
        slot0.intact(),
        slot1.intact(),
    ensures
        slot0.meta.snapshot_id > slot1.meta.snapshot_id ==> latest(slot0, slot1) == Some(0int),
        slot0.meta.snapshot_id < slot1.meta.snapshot_id ==> latest(slot0, slot1) == Some(1int),
        slot0 != slot1 && slot0.meta.snapshot_id == slot1.meta.snapshot_id ==> latest(
            slot0,
            slot1,
        ) is None,
{
    empty_slot_fields(slot0);
    empty_slot_fields(slot1);
}

/// Metadata that was opened is safe, if its counters describe a part of the list.
pub proof fn opened_is_crash_safe(contents: Seq<u8>)
    requires
        whole_entries(contents.len()),
        contents.len() <= usize::MAX,
    ensures
        recover(contents) matches Some(state) ==> {
            &&& state.active_slot().intact()
            &&& state.dirty_slot() == state.active_slot().successor()
            &&& state.committed_in_bounds() ==> state.crash_safe()
        },
{
    let image = padded(contents);
    let slot0 = HashedSlotView::from_bytes(image.subrange(0, 64));
    let slot1 = HashedSlotView::from_bytes(image.subrange(64, 128));
    hashed_slot_decode_encode(image.subrange(0, 64));
    hashed_slot_decode_encode(image.subrange(64, 128));
    latest_is_intact(slot0, slot1);
}

/// Opening a file gives back the last committed state that the file holds, whatever else is in the
/// file, unless the other slot is preferred.
pub proof fn crash_recovery(state: MetadataState, contents: Seq<u8>)
    requires
        0 <= state.active < 2,
        state.active_slot().intact(),
        stores_commit(contents, state),
        stored_dirty_slot(contents, state.active).yields_to(state.active_slot()),
    ensures
        recover(contents) matches Some(opened) ==> {
            &&& opened.active_slot() == state.active_slot()
            &&& opened.committed_orphans() == state.committed_orphans()
            &&& opened.orphans() == state.committed_orphans()
            &&& opened.dirty_slot() == state.active_slot().successor()
        },
        recover(contents) is Some,
{
    let image = padded(contents);
    let slot0 = HashedSlotView::from_bytes(image.subrange(0, 64));
    let slot1 = HashedSlotView::from_bytes(image.subrange(64, 128));
    hashed_slot_decode_encode(image.subrange(0, 64));
    hashed_slot_decode_encode(image.subrange(64, 128));
    empty_slot_fields(slot0);
    empty_slot_fields(slot1);
    let stored = state_from_image(image, state.active);
    let opened = recover(contents).unwrap();
    assert(latest_in(contents) is Some);
    assert(opened.committed_orphans() == stored.committed_orphans());
}

/// Bytes that follow a stored list change none of its entries.
proof fn longer_list(b: Seq<u8>, more: Seq<u8>)
    requires
        b.len() % 16 == 0,
    ensures
        list_from_bytes(b + more).len() >= list_from_bytes(b).len(),
        list_from_bytes(b + more).take(list_from_bytes(b).len() as int) == list_from_bytes(b),
{
    assert forall|i: int| 0 <= i < list_from_bytes(b).len() implies #[trigger] list_from_bytes(
        b + more,
    )[i] == list_from_bytes(b)[i] by {
        assert((b + more).subrange(16 * i, 16 * i + 16) =~= b.subrange(16 * i, 16 * i + 16));
    }
    assert(list_from_bytes(b + more).take(list_from_bytes(b).len() as int) =~= list_from_bytes(b));
}

/// Bytes that follow an image change neither its slots nor its list entries.
proof fn longer_image(image: Seq<u8>, more: Seq<u8>)
    requires
        image.len() >= 128,
        image.len() % 16 == 0,
    ensures
        (image + more).subrange(0, 64) == image.subrange(0, 64),
        (image + more).subrange(64, 128) == image.subrange(64, 128),
        ({
            let list = list_from_bytes(image.skip(128));
            let longer = list_from_bytes((image + more).skip(128));
            &&& longer.len() >= list.len()
            &&& longer.take(list.len() as int) == list
        }),
{
    assert((image + more).subrange(0, 64) =~= image.subrange(0, 64));
    assert((image + more).subrange(64, 128) =~= image.subrange(64, 128));
    assert((image + more).skip(128) =~= image.skip(128) + more);
    longer_list(image.skip(128), more);
}

/// What reading the stored form of a state gives: the same slots, and the same list, extended by
/// unused entries to the minimum size.
proof fn stored_state(state: MetadataState)
    requires
        state.valid(),
    ensures
        whole_entries(state.image().len()),
        ({
            let stored = state_from_image(padded(state.image()), state.active);
            &&& stored.slot0 == state.slot0
            &&& stored.slot1 == state.slot1
            &&& stored.list.len() >= state.list.len()
            &&& stored.list.take(state.list.len() as int) == state.list
        }),
{
    let image = state.image();
    image_layout(state);
    image_encode_decode(state);
    if image.len() < SIZE_MIN {
        longer_image(image, zeros((SIZE_MIN - image.len()) as nat));
    } else {
        assert(state.list.take(state.list.len() as int) =~= state.list);
    }
}

/// The stored form of a state holds its last committed state.
pub proof fn image_stores_commit(state: MetadataState)
    requires
        state.valid(),
        state.committed_in_bounds(),
    ensures
        stores_commit(state.image(), state),
        stored_dirty_slot(state.image(), state.active) == state.dirty_slot(),
{
    stored_state(state);
    let stored = state_from_image(padded(state.image()), state.active);
    assert(stored.committed_orphans() =~= stored.list.take(
        state.list.len() as int,
    ).subrange(
        state.active_slot().meta.reclaimed_orphans_len as int,
        state.active_slot().meta.orphan_pages_len as int,
    ));
}

/// A file in which some bytes of one state were overwritten by those of another one, such as a crash
/// leaves it, holds the last committed state, if that is the same for both.
pub proof fn mixed_image_stores_commit(
    state: MetadataState,
    after: MetadataState,
    contents: Seq<u8>,
)
    requires
        0 <= state.active < 2,
        state.valid(),
        state.committed_in_bounds(),
        after.valid(),
        after.list.len() == state.list.len(),
        state.same_commit(after),
        mixes(contents, state.image(), after.image()),
    ensures
        stores_commit(contents, state),
{
    image_layout(state);
    image_layout(after);
    let image = padded(contents);
    let stored = state_from_image(image, state.active);
    let start = 64 * state.active;
    hashed_slot_encode_decode(state.active_slot());
    assert(image.subrange(start, start + 64) =~= state.active_slot().bytes()) by {
        assert(state.image().subrange(start, start + 64) == state.active_slot().bytes());
        assert(after.image().subrange(start, start + 64) == state.active_slot().bytes());
        assert forall|k: int| 0 <= k < 64 implies #[trigger] image.subrange(start, start + 64)[k]
            == state.active_slot().bytes()[k] by {
            assert(state.image().subrange(start, start + 64)[k] == state.image()[start + k]);
            assert(after.image().subrange(start, start + 64)[k] == after.image()[start + k]);
            assert(contents[start + k] == state.image()[start + k]);
        }
    }
    assert(stored.active_slot() == state.active_slot());

    let first = state.active_slot().meta.reclaimed_orphans_len as int;
    let end = state.active_slot().meta.orphan_pages_len as int;
    assert forall|i: int| first <= i < end implies #[trigger] stored.list[i] == state.list[i] by {
        assert(after.committed_orphans()[i - first] == state.committed_orphans()[i - first]);
        let entry = image.skip(128).subrange(16 * i, 16 * i + 16);
        orphan_encode_decode(state.list[i]);
        assert forall|k: int| 0 <= k < 16 implies #[trigger] entry[k] == orphan_bytes(
            state.list[i],
        )[k] by {
            let at = 16 * i + k;
            assert(state.image().skip(128)[at] == state.image()[128 + at]);
            assert(after.image().skip(128)[at] == after.image()[128 + at]);
            assert(at / 16 == i && at % 16 == k);
            assert(contents[128 + at] == state.image()[128 + at]);
        }
        assert(entry =~= orphan_bytes(state.list[i]));
    }
    assert(stored.committed_orphans() =~= state.committed_orphans());
}

/// If the changes are stored but not committed, opening the file gives back the last committed
/// state, unless the dirty slot is preferred.
pub proof fn uncommitted_changes_are_lost(state: MetadataState)
    requires
        state.crash_safe(),
        state.dirty_slot().yields_to(state.active_slot()),
    ensures
        recover(state.image()) matches Some(opened) ==> {
            &&& opened.active_slot() == state.active_slot()
            &&& opened.orphans() == state.committed_orphans()
        },
        recover(state.image()) is Some,
{
    image_stores_commit(state);
    crash_recovery(state, state.image());
}

/// Opening a file after a commit gives back what was committed, unless the new dirty slot passes
/// for intact with the hash that it took over from the active one.
pub proof fn commit_persists(state: MetadataState)
    requires
        state.valid(),
        state.wf(),
        state.in_bounds(),
        state.dirty_slot().meta.snapshot_id < u64::MAX,
        state.commit().dirty_slot().yields_to(state.commit().active_slot()),
    ensures
        recover(state.commit().image()) matches Some(opened) ==> {
            &&& opened.active_slot() == state.commit().active_slot()
            &&& opened.active_slot().meta == (SlotView {
                orphan_pages_len: opened.active_slot().meta.orphan_pages_len,
                reclaimed_orphans_len: opened.active_slot().meta.reclaimed_orphans_len,
                ..state.dirty_slot().meta
            })
            &&& opened.orphans() == state.orphans()
        },
        recover(state.commit().image()) is Some,
{
    commit_promotes_dirty_slot(state);
    uncommitted_changes_are_lost(state.commit());
}

/// From the moment that the prepared changes are stored, opening the file gives the new state, even
/// if the slots never traded places.
pub proof fn prepared_commit_persists(state: MetadataState)
    requires
        state.valid(),
        state.wf(),
        state.in_bounds(),
        state.dirty_slot().meta.snapshot_id > state.active_slot().meta.snapshot_id,
    ensures
        recover(state.begin_commit().image()) matches Some(opened) ==> {
            &&& opened.active_slot() == state.begin_commit().dirty_slot()
            &&& opened.orphans() == state.orphans()
        },
        recover(state.begin_commit().image()) is Some,
{
    let prepared = state.begin_commit();
    let swapped = MetadataState { active: 1 - state.active, ..prepared };
    compaction_keeps_orphans(state);
    assert(swapped.committed_orphans() =~= state.compact_orphans().orphans());
    assert(swapped.image() == prepared.image());
    image_stores_commit(swapped);
    crash_recovery(swapped, swapped.image());
}

/// While the prepared changes are being stored, and some bytes of the file were written and others
/// not, the file holds the last committed state. Opening the file gives back that state, unless the
/// other slot is preferred.
pub proof fn interrupted_commit_keeps_commit(state: MetadataState, contents: Seq<u8>)
    requires
        state.crash_safe(),
        mixes(contents, state.image(), state.begin_commit().image()),
    ensures
        stores_commit(contents, state),
        stored_dirty_slot(contents, state.active).yields_to(state.active_slot()) ==> {
            &&& recover(contents) matches Some(opened)
            &&& opened.active_slot() == state.active_slot()
            &&& opened.orphans() == state.committed_orphans()
        },
{
    begin_commit_keeps_commit(state);
    mixed_image_stores_commit(state, state.begin_commit(), contents);
    if stored_dirty_slot(contents, state.active).yields_to(state.active_slot()) {
        crash_recovery(state, contents);
    }
}

/// Once the prepared changes are stored, the commit ends by rewriting the slot that was active. While
/// some bytes of it were written and others not, the file holds the new state. Opening the file
/// gives that state, unless the slot that is being rewritten is preferred.
pub proof fn interrupted_end_of_commit_persists(state: MetadataState, contents: Seq<u8>)
    requires
        state.crash_safe(),
        state.dirty_slot().meta.snapshot_id < u64::MAX,
        mixes(contents, state.begin_commit().image(), state.commit().image()),
    ensures
        stores_commit(contents, state.commit()),
        stored_dirty_slot(contents, 1 - state.active).yields_to(
            state.begin_commit().dirty_slot(),
        ) ==> {
            &&& recover(contents) matches Some(opened)
            &&& opened.active_slot() == state.begin_commit().dirty_slot()
            &&& opened.orphans() == state.orphans()
        },
{
    let saved = MetadataState { active: 1 - state.active, ..state.begin_commit() };
    commit_promotes_dirty_slot(state);
    assert(saved.image() == state.begin_commit().image());
    assert(saved.committed_orphans() == state.commit().committed_orphans());
    mixed_image_stores_commit(saved, state.commit(), contents);
    if stored_dirty_slot(contents, 1 - state.active).yields_to(state.begin_commit().dirty_slot()) {
        crash_recovery(saved, contents);
    }
}

/// The slots alternate: two commits later the same slot is active again.
pub proof fn slots_alternate(state: MetadataState)
    requires
        0 <= state.active < 2,
    ensures
        state.commit().active != state.active,
        state.commit().commit().active == state.active,
{
}

/// An empty file holds the metadata of a new database: no snapshot was committed, there are no
/// pages and no orphans. Erasing the metadata gives the same.
pub proof fn new_database(state: MetadataState)
    requires
        0 <= state.active < 2,
    ensures
        recover(Seq::empty()) == Some((MetadataState { active: 0, ..state }).wipe()),
        state.wipe().active == state.active,
        state.wipe().active_slot() == empty_slot(),
        state.wipe().dirty_slot() == empty_slot().successor(),
        state.wipe().orphans() == Seq::<OrphanPage>::empty(),
        state.wipe().crash_safe(),
{
    let image = padded(Seq::empty());
    assert(image =~= zeros(4096));
    let blank = empty_slot();
    empty_slot_fields(blank);
    assert(image.subrange(0, 64) =~= zeros(64));
    assert(image.subrange(64, 128) =~= zeros(64));
    hashed_slot_encode_decode(blank);
    assert(HashedSlotView::from_bytes(zeros(64)) == blank);
    let list = list_from_bytes(image.skip(128));
    assert forall|i: int| 0 <= i < 248 implies list[i] == unused_entry() by {
        let entry = image.skip(128).subrange(16 * i, 16 * i + 16);
        u32_zero_bytes(0);
        u64_zero_bytes(0);
        assert(entry =~= orphan_bytes(unused_entry()));
        orphan_encode_decode(unused_entry());
    }
    assert(list =~= Seq::new(248, |i: int| unused_entry()));
    assert(state.wipe().orphans() =~= Seq::<OrphanPage>::empty());
}

} // verus!
