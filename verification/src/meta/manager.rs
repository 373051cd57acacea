//! The metadata manager.
use vstd::prelude::*;
use core::ops::Not;
use crate::bytes::{push_u32, push_u64, read_u32, read_u64, zeros};
use crate::meta::codec::orphan_encode_decode;
use crate::meta::error::{CapacityOverflowError, CorruptedMetadataError};
use crate::meta::model::{
    empty_slot, list_bytes, list_from_bytes, openable, orphan_bytes, orphan_from_bytes, padded,
    recover, unused_entry, HashedSlotView, MetadataState, HASHED_SLOT_LEN, HEADER_LEN, ORPHAN_LEN,
    SIZE_MIN,
};
use crate::meta::orphan::OrphanPage;
use crate::meta::slot::{HashedMetadataSlot, MetadataSlot, MetadataSlots, SlotIndex};

verus! {

/// Holds the metadata of a database.
#[derive(Debug)]
pub struct MetadataManager {
    pub(crate) slots: MetadataSlots,
    pub(crate) list: Vec<OrphanPage>,
    pub(crate) active_slot: SlotIndex,
}

impl View for MetadataManager {
    type V = MetadataState;

    open(crate) spec fn view(&self) -> MetadataState {
        MetadataState {
            slot0: self.slots.slot0@,
            slot1: self.slots.slot1@,
            list: self.list@,
            active: self.active_slot.0 as int,
        }
    }
}

/// A slot that was never written.
fn blank_slot() -> (slot: HashedMetadataSlot)
    ensures
        slot@ == empty_slot(),
{
    let slot = HashedMetadataSlot {
        meta: MetadataSlot {
            snapshot_id: 0,
            root_node_hash: [0u8; 32],
            root_node_page_id: 0,
            page_count: 0,
            orphan_pages_len: 0,
            reclaimed_orphans_len: 0,
        },
        hash: 0,
    };
    assert(slot@.meta.root_node_hash =~= zeros(32));
    slot
}

/// The stored form of a list that gets one more entry.
proof fn list_bytes_push(list: Seq<OrphanPage>, orphan: OrphanPage)
    ensures
        list_bytes(list.push(orphan)) == list_bytes(list) + orphan_bytes(orphan),
{
    orphan_encode_decode(orphan);
    assert(list_bytes(list.push(orphan)) =~= list_bytes(list) + orphan_bytes(orphan));
}

/// The contents of a file, extended by zeros to the minimum size.
fn padded_image(contents: &[u8]) -> (image: Vec<u8>)
    ensures
        image@ == padded(contents@),
{
    let mut image: Vec<u8> = Vec::new();
    image.extend_from_slice(contents);
    assert(image@ =~= contents@);
    if image.len() < SIZE_MIN {
        image.resize(SIZE_MIN, 0);
        assert(image@ =~= padded(contents@));
    }
    image
}

/// Reads the two slots of an image.
fn read_slots(image: &[u8]) -> (slots: MetadataSlots)
    requires
        image.len() >= HEADER_LEN,
    ensures
        slots@.0 == HashedSlotView::from_bytes(image@.subrange(0, 64)),
        slots@.1 == HashedSlotView::from_bytes(image@.subrange(64, 128)),
{
    MetadataSlots::new(
        HashedMetadataSlot::read_from(image, 0),
        HashedMetadataSlot::read_from(image, HASHED_SLOT_LEN),
    )
}

/// Reads the orphan page list of an image.
fn read_list(image: &[u8]) -> (list: Vec<OrphanPage>)
    requires
        image.len() >= HEADER_LEN,
    ensures
        list@ == list_from_bytes(image@.skip(128)),
{
    let len: usize = (image.len() - HEADER_LEN) / ORPHAN_LEN;
    let mut list: Vec<OrphanPage> = Vec::with_capacity(len);
    let ghost b = image@.skip(128);
    let mut i: usize = 0;
    while i < len
        invariant
            i <= len,
            len == (image.len() - HEADER_LEN) / ORPHAN_LEN as int,
            image.len() >= HEADER_LEN,
            b == image@.skip(128),
            list@.len() == i,
            forall|j: int|
                0 <= j < i ==> #[trigger] list@[j] == orphan_from_bytes(
                    b.subrange(16 * j, 16 * j + 16),
                ),
        decreases len - i,
    {
        let at: usize = HEADER_LEN + ORPHAN_LEN * i;
        let orphan = OrphanPage {
            page_id: read_u32(image, at),
            padding: read_u32(image, at + 4),
            orphaned_at: read_u64(image, at + 8),
        };
        proof {
            let entry = b.subrange(16 * i, 16 * i + 16);
            assert(entry.subrange(0, 4) =~= image@.subrange(at as int, at + 4));
            assert(entry.subrange(4, 8) =~= image@.subrange(at + 4, at + 8));
            assert(entry.subrange(8, 16) =~= image@.subrange(at + 8, at + 16));
        }
        list.push(orphan);
        i = i + 1;
    }
    assert(list@ =~= list_from_bytes(b));
    list
}

impl MetadataManager {
    /// Every manager holds valid slots.
    pub proof fn view_is_valid(&self)
        ensures
            self@.valid(),
    {
    }

    /// Returns a reference to the active metadata slot.
    ///
    /// This is the slot that was last committed.
    pub fn active_slot(&self) -> (slot: &HashedMetadataSlot)
        ensures
            slot@ == self@.active_slot(),
    {
        if *self.active_slot == 0 {
            &self.slots.slot0
        } else {
            &self.slots.slot1
        }
    }

    /// Returns a reference to the dirty metadata slot.
    ///
    /// This is the slot that has not been committed yet.
    pub fn dirty_slot(&self) -> (slot: &HashedMetadataSlot)
        ensures
            slot@ == self@.dirty_slot(),
    {
        if *self.active_slot == 0 {
            &self.slots.slot1
        } else {
            &self.slots.slot0
        }
    }

    /// Returns a mutable reference to the dirty metadata slot.
    ///
    /// This is the slot that has not been committed yet. Modifications to this slot can be saved
    /// by calling [`commit()`](Self::commit), at which point this slot becomes the active slot.
    pub fn dirty_slot_mut(&mut self) -> (slot: &mut HashedMetadataSlot)
        ensures
            slot@ == old(self)@.dirty_slot(),
            final(self)@ == old(self)@.with_dirty(final(slot)@),
    {
        let (_, dirty, _) = self.parts_mut();
        dirty
    }

    /// Tells whether the counters of the dirty slot describe a part of the orphan page list. They
    /// do, unless the file was opened with counters that don't.
    #[must_use]
    pub fn orphans_in_bounds(&self) -> (in_bounds: bool)
        ensures
            in_bounds == self@.in_bounds(),
    {
        let dirty = self.dirty_slot();
        dirty.meta.is_ordered() && dirty.meta.orphan_pages_len as usize <= self.list.len()
    }

    /// Returns a slice containing the orphaned and reclaimed page IDs.
    pub(crate) fn raw_orphan_pages(&self) -> (list: &[OrphanPage])
        ensures
            list@ == self@.list,
    {
        self.list.as_slice()
    }

    /// Returns, in this order: an immutable reference to the active slot, a mutable reference to
    /// the dirty slot, a mutable reference to the orphan pages list.
    ///
    /// This convenience method is necessary because Rust borrow rules don't allow obtaining two
    /// mutable references to the same object.
    pub(crate) fn parts_mut(&mut self) -> (parts: (
        &HashedMetadataSlot,
        &mut HashedMetadataSlot,
        &mut [OrphanPage],
    ))
        ensures
            parts.0@ == old(self)@.active_slot(),
            parts.1@ == old(self)@.dirty_slot(),
            parts.2@ == old(self)@.list,
            final(self)@ == (MetadataState { list: final(parts.2)@, ..old(self)@ }).with_dirty(
                final(parts.1)@,
            ),
    {
        if *self.active_slot == 0 {
            (&self.slots.slot0, &mut self.slots.slot1, self.list.as_mut_slice())
        } else {
            (&self.slots.slot1, &mut self.slots.slot0, self.list.as_mut_slice())
        }
    }

    /// Copies the contents of the active slot into the dirty slot, and increases the snapshot ID.
    fn populate_dirty_slot(&mut self)
        requires
            old(self)@.active_slot().meta.snapshot_id < u64::MAX,
        ensures
            final(self)@ == old(self)@.populate_dirty_slot(),
    {
        let (active, dirty, _) = self.parts_mut();
        *dirty = active.clone();
        dirty.meta.inc_snapshot_id();
    }

    /// Resets the dirty slot by copying from active slot and incrementing snapshot ID.
    ///
    /// Used for abort/rollback scenarios where changes need to be discarded without persisting.
    pub fn reset_dirty_slot(&mut self)
        requires
            old(self)@.active_slot().meta.snapshot_id < u64::MAX,
        ensures
            final(self)@ == old(self)@.populate_dirty_slot(),
    {
        self.populate_dirty_slot();
    }

    /// Moves the orphans to the start of the list, if there's enough room.
    fn compact_orphans(&mut self)
        requires
            old(self)@.dirty_slot().meta.ordered(),
            old(self)@.compacts() ==> old(self)@.in_bounds(),
        ensures
            final(self)@ == old(self)@.compact_orphans(),
    {
        let ghost before = self@;
        let (active, dirty, list) = self.parts_mut();
        let reclaimed_range = active.meta.reclaimed_range();
        let actual_orphans_range = dirty.meta.actual_orphans_range();
        let start: usize = actual_orphans_range.start;
        let count: usize = actual_orphans_range.end - start;

        // If orphan page list has observed N pushes and M pops, then there are N - M orphans. They
        // are moved to the start of the list when the M entries that were popped before the last
        // commit have room for them, that is when M >= N - M, which implies N <= 2M. In total, N
        // pushes, M pops and N - M copies will have been performed, for a total of 2N operations,
        // which means that adding items to the orphan page list still takes O(1) amortized time.
        if reclaimed_range.end - reclaimed_range.start >= count {
            dirty.meta.orphan_pages_len = count as u32;
            dirty.meta.reclaimed_orphans_len = 0;
            let mut i: usize = 0;
            while i < count
                invariant
                    i <= count,
                    start + count <= u32::MAX,
                    start + count <= list@.len(),
                    list@.len() == before.list.len(),
                    forall|j: int|
                        0 <= j < list@.len() ==> #[trigger] list@[j] == if j < i {
                            before.list[start + j]
                        } else {
                            before.list[j]
                        },
                decreases count - i,
            {
                list[i] = list[start + i];
                i = i + 1;
            }
            proof {
                assert(list@ =~= before.orphans() + before.list.skip(count as int));
            }
        }
    }

    /// Prepares the changes for a commit: compacts the orphan page list if there's enough room,
    /// and gives the dirty slot its hash.
    ///
    /// Once the metadata has been saved in this form, [`finish_commit()`](Self::finish_commit)
    /// promotes the dirty slot. If it could not be saved, the last committed state stays active.
    pub fn begin_commit(&mut self)
        requires
            old(self)@.dirty_slot().meta.ordered(),
            old(self)@.compacts() ==> old(self)@.in_bounds(),
        ensures
            final(self)@ == old(self)@.begin_commit(),
    {
        // Compact the orphan page list if there's enough room
        self.compact_orphans();
        self.dirty_slot_mut().update_hash();
    }

    /// Promotes the dirty slot to the active slot, after it has been saved.
    pub fn finish_commit(&mut self)
        requires
            old(self)@.wf(),
            old(self)@.dirty_slot().meta.snapshot_id < u64::MAX,
        ensures
            final(self)@ == old(self)@.finish_commit(),
    {
        // Swap the slots, and copy the previously dirty slot (now active) into the previously
        // active slot (now dirty), and increase its snapshot ID
        self.active_slot = self.active_slot.not();
        self.populate_dirty_slot();
    }

    /// Tells whether the changes can be committed: the orphans can be compacted if there's enough
    /// room, and there is a next snapshot ID.
    #[must_use]
    pub fn can_commit(&self) -> (possible: bool)
        ensures
            possible == {
                &&& self@.dirty_slot().meta.ordered()
                &&& self@.compacts() ==> self@.in_bounds()
                &&& self@.dirty_slot().meta.snapshot_id < u64::MAX
            },
    {
        let dirty = self.dirty_slot();
        if !dirty.meta.is_ordered() {
            return false;
        }
        let count: u32 = dirty.meta.orphan_pages_len - dirty.meta.reclaimed_orphans_len;
        (self.active_slot().meta.reclaimed_orphans_len < count || self.orphans_in_bounds())
            && dirty.meta.snapshot_id < u64::MAX
    }

    /// Promotes the dirty slot to the active slot.
    ///
    /// After calling this method, a new dirty slot is produced with the same contents as the new
    /// active slot, and an auto-incremented snapshot ID.
    pub fn commit(&mut self)
        requires
            old(self)@.wf(),
            old(self)@.dirty_slot().meta.ordered(),
            old(self)@.compacts() ==> old(self)@.in_bounds(),
            old(self)@.dirty_slot().meta.snapshot_id < u64::MAX,
        ensures
            final(self)@ == old(self)@.commit(),
    {
        self.begin_commit();
        self.finish_commit();
    }

    /// Returns the size of the stored form of the metadata.
    #[must_use]
    pub fn image_len(&self) -> (len: usize)
        requires
            self@.wf(),
        ensures
            len == 128 + 16 * self@.list.len(),
    {
        HEADER_LEN + ORPHAN_LEN * self.list.len()
    }

    /// Returns the size that the stored form of the metadata has after [`grow()`](Self::grow), or
    /// `None` if that is too large.
    #[must_use]
    pub fn grown_len(&self) -> (len: Option<usize>)
        requires
            self@.wf(),
        ensures
            match len {
                Some(len) => len == 2 * (128 + 16 * self@.list.len()),
                None => 2 * (128 + 16 * self@.list.len()) > usize::MAX,
            },
    {
        self.image_len().checked_mul(2)
    }

    /// Doubles the size of the metadata.
    pub fn grow(&mut self) -> (result: Result<(), CapacityOverflowError>)
        requires
            old(self)@.wf(),
        ensures
            match result {
                Ok(()) => {
                    &&& final(self)@ == old(self)@.grow()
                    &&& final(self)@.wf()
                },
                Err(_) => {
                    &&& final(self)@ == old(self)@
                    &&& 2 * (128 + 16 * old(self)@.list.len()) > usize::MAX
                },
            },
    {
        if self.grown_len().is_none() {
            return Err(CapacityOverflowError);
        }
        let new_len: usize = 2 * self.list.len() + 8;
        self.list.resize(new_len, OrphanPage { page_id: 0, padding: 0, orphaned_at: 0 });
        proof {
            let old_list = old(self)@.list;
            assert(self.list@ =~= old_list + Seq::new(old_list.len() + 8, |i: int| unused_entry()))
                by {
                assert forall|i: int| 0 <= i < old_list.len() implies self.list@[i]
                    == old_list[i] by {
                    assert(self.list@.subrange(0, old_list.len() as int)[i] == old_list[i]);
                }
            }
        }
        Ok(())
    }

    /// Erases the metadata contents.
    pub fn wipe(&mut self)
        ensures
            final(self)@ == old(self)@.wipe(),
    {
        // Set the size to its initial value, clear the contents, and re-populate with the initial
        // values
        self.slots = MetadataSlots::new(blank_slot(), blank_slot());
        self.list.clear();
        self.list.resize(
            (SIZE_MIN - HEADER_LEN) / ORPHAN_LEN,
            OrphanPage { page_id: 0, padding: 0, orphaned_at: 0 },
        );
        assert(self.list@ =~= Seq::new(248, |i: int| unused_entry()));
        self.populate_dirty_slot();
    }

    /// Puts together a manager whose active slot is known, and populates its dirty slot.
    pub fn from_parts(slots: MetadataSlots, list: Vec<OrphanPage>, active_slot: SlotIndex) -> (manager:
        Self)
        requires
            active_slot.0 < 2,
            (if active_slot.0 == 0 {
                slots@.0
            } else {
                slots@.1
            }).meta.snapshot_id < u64::MAX,
        ensures
            manager@ == (MetadataState {
                slot0: slots@.0,
                slot1: slots@.1,
                list: list@,
                active: active_slot.0 as int,
            }).populate_dirty_slot(),
    {
        let mut manager = MetadataManager { slots, list, active_slot };
        manager.populate_dirty_slot();
        manager
    }

    /// Opens the metadata stored in a file with the given contents. A file that is smaller than
    /// the minimum size is extended by zeros first.
    pub fn from_file(contents: &[u8]) -> (result: Result<Self, CorruptedMetadataError>)
        requires
            openable(contents@),
        ensures
            match result {
                Ok(manager) => {
                    &&& recover(contents@) == Some(manager@)
                    &&& manager@.wf()
                },
                Err(_) => recover(contents@) is None,
            },
    {
        let image = padded_image(contents);
        let slots = read_slots(image.as_slice());
        let list = read_list(image.as_slice());
        assert(128 + 16 * list@.len() <= image.len());
        match slots.latest_slot_index() {
            Ok(active_slot) => Ok(Self::from_parts(slots, list, active_slot)),
            Err(error) => Err(error),
        }
    }

    /// Opens the metadata stored in a file with the given contents, like
    /// [`from_file()`](Self::from_file). Returns `None` if the file is not corrupted, but does not
    /// hold a whole number of list entries, or has no snapshot ID after the latest one.
    pub fn try_from_file(contents: &[u8]) -> (result: Option<Result<Self, CorruptedMetadataError>>)
        ensures
            match result {
                Some(Ok(manager)) => {
                    &&& openable(contents@)
                    &&& recover(contents@) == Some(manager@)
                    &&& manager@.wf()
                },
                Some(Err(_)) => openable(contents@) && recover(contents@) is None,
                None => !openable(contents@),
            },
    {
        let image = padded_image(contents);
        let slots = read_slots(image.as_slice());
        if let Ok(active_slot) = slots.latest_slot_index() {
            let active = if *active_slot == 0 {
                &slots.slot0
            } else {
                &slots.slot1
            };
            let ragged = contents.len() >= SIZE_MIN && contents.len() % ORPHAN_LEN != 0;
            if ragged || active.meta.snapshot_id == u64::MAX {
                return None;
            }
        }
        Some(Self::from_file(contents))
    }

    /// Returns the stored form of the metadata.
    #[must_use]
    pub fn to_bytes(&self) -> (image: Vec<u8>)
        requires
            self@.wf(),
        ensures
            image@ == self@.image(),
    {
        let mut out: Vec<u8> = Vec::with_capacity(self.image_len());
        self.slots.slot0.write_to(&mut out);
        self.slots.slot1.write_to(&mut out);
        let ghost slots = out@;
        assert(slots =~= self@.slot0.bytes() + self@.slot1.bytes());
        let mut i: usize = 0;
        assert(out@ =~= slots + list_bytes(self.list@.take(0)));
        while i < self.list.len()
            invariant
                i <= self.list.len(),
                out@ == slots + list_bytes(self.list@.take(i as int)),
            decreases self.list.len() - i,
        {
            let orphan = self.list[i];
            push_u32(&mut out, orphan.page_id);
            push_u32(&mut out, orphan.padding);
            push_u64(&mut out, orphan.orphaned_at);
            proof {
                list_bytes_push(self.list@.take(i as int), orphan);
                assert(self.list@.take(i as int).push(orphan) =~= self.list@.take(i + 1));
                assert(out@ =~= slots + list_bytes(self.list@.take(i + 1)));
            }
            i = i + 1;
        }
        assert(self.list@.take(i as int) =~= self.list@);
        out
    }
}

} // verus!
