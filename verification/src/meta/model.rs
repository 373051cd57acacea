//! What the metadata is: its contents, its stored form, and how it changes.
use vstd::prelude::*;
use crate::bytes::{ne_u32, ne_u64, u32_ne, u64_ne, zeros};
use crate::meta::hash::fx_hash64;
use crate::meta::orphan::OrphanPage;

verus! {

/// Stored size of the fixed metadata of one slot, without its hash.
pub const SLOT_LEN: usize = 56;

/// Stored size of one slot, hash included.
pub const HASHED_SLOT_LEN: usize = 64;

/// Stored size of the two slots. The orphan page list starts at this offset.
pub const HEADER_LEN: usize = 128;

/// Stored size of one entry of the orphan page list.
pub const ORPHAN_LEN: usize = 16;

/// Minimum size of the stored metadata (4 KiB).
///
/// This is an arbitrary number. The only requirement is for it to be large enough to contain two
/// slots.
pub const SIZE_MIN: usize = 4096;

/// Contents of the fixed metadata, without its hash.
pub struct SlotView {
    pub snapshot_id: u64,
    pub root_node_hash: Seq<u8>,
    pub root_node_page_id: u32,
    pub page_count: u32,
    pub orphan_pages_len: u32,
    pub reclaimed_orphans_len: u32,
}

impl SlotView {
    /// The values that a slot can hold: the root node hash has 32 bytes.
    pub open spec fn valid(self) -> bool {
        self.root_node_hash.len() == 32
    }

    /// Stored form: the fields one after the other, in the byte order of the machine.
    #[verifier::opaque]
    pub open spec fn bytes(self) -> Seq<u8> {
        ne_u64(self.snapshot_id) + self.root_node_hash + ne_u32(self.root_node_page_id) + ne_u32(
            self.page_count,
        ) + ne_u32(self.orphan_pages_len) + ne_u32(self.reclaimed_orphans_len)
    }

    /// The contents that are stored as `b`.
    #[verifier::opaque]
    pub open spec fn from_bytes(b: Seq<u8>) -> SlotView {
        SlotView {
            snapshot_id: u64_ne(b.subrange(0, 8)),
            root_node_hash: b.subrange(8, 40),
            root_node_page_id: u32_ne(b.subrange(40, 44)),
            page_count: u32_ne(b.subrange(44, 48)),
            orphan_pages_len: u32_ne(b.subrange(48, 52)),
            reclaimed_orphans_len: u32_ne(b.subrange(52, 56)),
        }
    }

    /// No more orphans were reclaimed than were ever listed.
    pub open spec fn ordered(self) -> bool {
        self.reclaimed_orphans_len <= self.orphan_pages_len
    }

    /// Number of listed orphans that were not reclaimed.
    pub open spec fn orphans_count(self) -> int {
        self.orphan_pages_len - self.reclaimed_orphans_len
    }
}

/// Contents of a metadata slot.
pub struct HashedSlotView {
    pub meta: SlotView,
    pub hash: u64,
}

impl HashedSlotView {
    /// Stored form: the fixed metadata, then its hash.
    pub open spec fn bytes(self) -> Seq<u8> {
        self.meta.bytes() + ne_u64(self.hash)
    }

    /// The contents that are stored as `b`.
    pub open spec fn from_bytes(b: Seq<u8>) -> HashedSlotView {
        HashedSlotView {
            meta: SlotView::from_bytes(b.subrange(0, 56)),
            hash: u64_ne(b.subrange(56, 64)),
        }
    }

    /// The slot was never written: its stored form is all zeros.
    pub open spec fn is_empty(self) -> bool {
        self.bytes() == zeros(64)
    }

    /// The slot is not corrupted, if the hash of its fixed metadata is `computed`.
    pub open spec fn intact_given(self, computed: u64) -> bool {
        self.is_empty() || (self.meta.ordered() && self.hash == computed)
    }

    /// The slot is not corrupted.
    pub open spec fn intact(self) -> bool {
        self.intact_given(fx_hash64(self.meta.bytes()))
    }

    /// The same slot, with the hash of its fixed metadata.
    pub open spec fn hashed(self) -> HashedSlotView {
        HashedSlotView { hash: fx_hash64(self.meta.bytes()), ..self }
    }

    /// The slot that follows this one: the same contents under the next snapshot ID.
    pub open spec fn successor(self) -> HashedSlotView {
        HashedSlotView {
            meta: SlotView { snapshot_id: (self.meta.snapshot_id + 1) as u64, ..self.meta },
            ..self
        }
    }
}

/// Which of two slots holds the latest metadata, if the hashes of their fixed metadata are `hash0`
/// and `hash1`. `None` if that cannot be told.
pub open spec fn latest_given(
    slot0: HashedSlotView,
    slot1: HashedSlotView,
    hash0: u64,
    hash1: u64,
) -> Option<int> {
    if slot0.is_empty() && slot1.is_empty() {
        Some(0)
    } else if !slot0.intact_given(hash0) && !slot1.intact_given(hash1) {
        None
    } else if !slot1.intact_given(hash1) {
        Some(0)
    } else if !slot0.intact_given(hash0) {
        Some(1)
    } else if slot0.meta.snapshot_id > slot1.meta.snapshot_id {
        Some(0)
    } else if slot0.meta.snapshot_id < slot1.meta.snapshot_id {
        Some(1)
    } else if slot0 == slot1 {
        Some(0)
    } else {
        None
    }
}

/// Which of two slots holds the latest metadata. `None` if that cannot be told.
pub open spec fn latest(slot0: HashedSlotView, slot1: HashedSlotView) -> Option<int> {
    latest_given(slot0, slot1, fx_hash64(slot0.meta.bytes()), fx_hash64(slot1.meta.bytes()))
}

/// Stored form of an entry of the orphan page list, in the byte order of the machine.
pub open spec fn orphan_bytes(orphan: OrphanPage) -> Seq<u8> {
    ne_u32(orphan.page_id) + ne_u32(orphan.padding) + ne_u64(orphan.orphaned_at)
}

/// The entry that is stored as `b`.
pub open spec fn orphan_from_bytes(b: Seq<u8>) -> OrphanPage {
    OrphanPage {
        page_id: u32_ne(b.subrange(0, 4)),
        padding: u32_ne(b.subrange(4, 8)),
        orphaned_at: u64_ne(b.subrange(8, 16)),
    }
}

/// Stored form of the orphan page list: its entries one after the other.
pub open spec fn list_bytes(list: Seq<OrphanPage>) -> Seq<u8> {
    Seq::new(16 * list.len(), |k: int| orphan_bytes(list[k / 16])[k % 16])
}

/// The orphan page list that is stored as `b`.
pub open spec fn list_from_bytes(b: Seq<u8>) -> Seq<OrphanPage> {
    Seq::new(b.len() / 16, |i: int| orphan_from_bytes(b.subrange(16 * i, 16 * i + 16)))
}

/// The entry that unused space of the orphan page list holds.
pub open spec fn unused_entry() -> OrphanPage {
    OrphanPage { page_id: 0, padding: 0, orphaned_at: 0 }
}

/// A slot that was never written.
pub open spec fn empty_slot() -> HashedSlotView {
    HashedSlotView {
        meta: SlotView {
            snapshot_id: 0,
            root_node_hash: zeros(32),
            root_node_page_id: 0,
            page_count: 0,
            orphan_pages_len: 0,
            reclaimed_orphans_len: 0,
        },
        hash: 0,
    }
}

/// Contents of the metadata.
///
/// One of the two slots is active: it holds the metadata that was last committed. The other one is
/// dirty: it holds what the next commit will save.
pub struct MetadataState {
    pub slot0: HashedSlotView,
    pub slot1: HashedSlotView,
    pub list: Seq<OrphanPage>,
    /// Index of the active slot.
    pub active: int,
}

impl MetadataState {
    /// Both slots hold values that a slot can hold.
    pub open spec fn valid(self) -> bool {
        self.slot0.meta.valid() && self.slot1.meta.valid()
    }

    /// One of the two slots is active, and the stored form fits in memory.
    pub open spec fn wf(self) -> bool {
        &&& 0 <= self.active < 2
        &&& 128 + 16 * self.list.len() <= usize::MAX
    }

    pub open spec fn active_slot(self) -> HashedSlotView {
        if self.active == 0 {
            self.slot0
        } else {
            self.slot1
        }
    }

    pub open spec fn dirty_slot(self) -> HashedSlotView {
        if self.active == 0 {
            self.slot1
        } else {
            self.slot0
        }
    }

    /// The same metadata, with another dirty slot.
    pub open spec fn with_dirty(self, dirty: HashedSlotView) -> MetadataState {
        if self.active == 0 {
            MetadataState { slot1: dirty, ..self }
        } else {
            MetadataState { slot0: dirty, ..self }
        }
    }

    /// The counters of the dirty slot describe a part of the list.
    pub open spec fn in_bounds(self) -> bool {
        &&& self.dirty_slot().meta.ordered()
        &&& self.dirty_slot().meta.orphan_pages_len <= self.list.len()
    }

    /// The orphans that can be reclaimed, oldest entry first.
    pub open spec fn orphans(self) -> Seq<OrphanPage> {
        self.list.subrange(
            self.dirty_slot().meta.reclaimed_orphans_len as int,
            self.dirty_slot().meta.orphan_pages_len as int,
        )
    }

    /// The orphans as of the last commit, oldest entry first.
    pub open spec fn committed_orphans(self) -> Seq<OrphanPage> {
        self.list.subrange(
            self.active_slot().meta.reclaimed_orphans_len as int,
            self.active_slot().meta.orphan_pages_len as int,
        )
    }

    /// Stored form: the two slots, then the orphan page list.
    pub open spec fn image(self) -> Seq<u8> {
        self.slot0.bytes() + self.slot1.bytes() + list_bytes(self.list)
    }

    /// The dirty slot takes over the contents of the active one, under the next snapshot ID.
    pub open spec fn populate_dirty_slot(self) -> MetadataState {
        self.with_dirty(self.active_slot().successor())
    }

    /// If there is room for the orphan, it is not older than the last list entry, claimed or not.
    pub open spec fn in_order(self, orphan: OrphanPage) -> bool {
        let len = self.dirty_slot().meta.orphan_pages_len;
        0 < len < self.list.len() ==> self.list[len - 1].orphaned_at <= orphan.orphaned_at
    }

    /// An orphan goes to the end of the list.
    pub open spec fn push(self, orphan: OrphanPage) -> MetadataState {
        let dirty = self.dirty_slot();
        let len = dirty.meta.orphan_pages_len;
        MetadataState { list: self.list.update(len as int, orphan), ..self }.with_dirty(
            HashedSlotView {
                meta: SlotView { orphan_pages_len: (len + 1) as u32, ..dirty.meta },
                ..dirty
            },
        )
    }

    /// The list entry that is reclaimed next.
    pub open spec fn first_orphan(self) -> OrphanPage {
        self.list[self.dirty_slot().meta.reclaimed_orphans_len as int]
    }

    /// There is a first orphan, and it was orphaned at `threshold` or earlier.
    pub open spec fn can_pop(self, threshold: u64) -> bool {
        self.dirty_slot().meta.orphans_count() > 0 && self.first_orphan().orphaned_at <= threshold
    }

    /// There is no room for another orphan.
    pub open spec fn is_full(self) -> bool {
        self.dirty_slot().meta.orphan_pages_len >= self.list.len()
    }

    /// The first orphan is reclaimed.
    pub open spec fn pop(self) -> MetadataState {
        let dirty = self.dirty_slot();
        self.with_dirty(
            HashedSlotView {
                meta: SlotView {
                    reclaimed_orphans_len: (dirty.meta.reclaimed_orphans_len + 1) as u32,
                    ..dirty.meta
                },
                ..dirty
            },
        )
    }

    /// Twice the size, with unused space at the end.
    pub open spec fn grow(self) -> MetadataState {
        MetadataState {
            list: self.list + Seq::new(self.list.len() + 8, |i: int| unused_entry()),
            ..self
        }
    }

    /// The entries that were reclaimed as of the last commit have room for the orphans.
    pub open spec fn compacts(self) -> bool {
        self.active_slot().meta.reclaimed_orphans_len >= self.dirty_slot().meta.orphans_count()
    }

    /// The orphans are moved to the start of the list, if the entries that were reclaimed as of
    /// the last commit have room for them.
    pub open spec fn compact_orphans(self) -> MetadataState {
        let dirty = self.dirty_slot();
        let orphans = self.orphans();
        if self.compacts() {
            MetadataState { list: orphans + self.list.skip(orphans.len() as int), ..self }.with_dirty(
                HashedSlotView {
                    meta: SlotView {
                        orphan_pages_len: orphans.len() as u32,
                        reclaimed_orphans_len: 0,
                        ..dirty.meta
                    },
                    ..dirty
                },
            )
        } else {
            self
        }
    }

    /// What is stored before the slots trade places: the orphans are compacted and the dirty slot
    /// has its hash.
    pub open spec fn begin_commit(self) -> MetadataState {
        let compacted = self.compact_orphans();
        compacted.with_dirty(compacted.dirty_slot().hashed())
    }

    /// The slots trade places, and the new dirty slot is populated.
    pub open spec fn finish_commit(self) -> MetadataState {
        MetadataState { active: 1 - self.active, ..self }.populate_dirty_slot()
    }

    pub open spec fn commit(self) -> MetadataState {
        self.begin_commit().finish_commit()
    }

    /// Empty metadata of minimum size, with the same slot active.
    pub open spec fn wipe(self) -> MetadataState {
        MetadataState {
            slot0: empty_slot(),
            slot1: empty_slot(),
            list: Seq::new(248, |i: int| unused_entry()),
            active: self.active,
        }.populate_dirty_slot()
    }
}

/// Contents of a file, extended by zeros to the minimum size.
pub open spec fn padded(contents: Seq<u8>) -> Seq<u8> {
    if contents.len() < SIZE_MIN {
        contents + zeros((SIZE_MIN - contents.len()) as nat)
    } else {
        contents
    }
}

/// A file of this size holds the two slots and a whole number of list entries, once it has been
/// extended to the minimum size.
pub open spec fn whole_entries(len: nat) -> bool {
    len < SIZE_MIN || len % 16 == 0
}

/// The slots and the list that an image stores, with the given slot active.
pub open spec fn state_from_image(image: Seq<u8>, active: int) -> MetadataState {
    MetadataState {
        slot0: HashedSlotView::from_bytes(image.subrange(0, 64)),
        slot1: HashedSlotView::from_bytes(image.subrange(64, 128)),
        list: list_from_bytes(image.skip(128)),
        active,
    }
}

/// Index of the slot that opening a file with these contents makes active.
pub open spec fn latest_in(contents: Seq<u8>) -> Option<int> {
    let image = padded(contents);
    latest(
        HashedSlotView::from_bytes(image.subrange(0, 64)),
        HashedSlotView::from_bytes(image.subrange(64, 128)),
    )
}

/// The metadata that opening a file with these contents gives. `None` if the file is corrupted.
pub open spec fn recover(contents: Seq<u8>) -> Option<MetadataState> {
    match latest_in(contents) {
        Some(active) => Some(state_from_image(padded(contents), active).populate_dirty_slot()),
        None => None,
    }
}

/// The file can be opened, or is found to be corrupted: unless it is corrupted, it has a whole
/// number of list entries, and the snapshot after the latest one has an ID.
pub open spec fn openable(contents: Seq<u8>) -> bool {
    latest_in(contents) matches Some(active) ==> {
        &&& whole_entries(contents.len())
        &&& state_from_image(padded(contents), active).active_slot().meta.snapshot_id < u64::MAX
    }
}

} // verus!
