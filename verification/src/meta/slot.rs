//! The two slots of the fixed metadata.
use vstd::prelude::*;
use core::ops::{Deref, DerefMut, Not, Range};
use crate::bytes::{push_u32, push_u64, read_u32, read_u64, zeros};
use crate::meta::codec::{empty_slot_fields, slot_encode_decode};
use crate::meta::error::CorruptedMetadataError;
use crate::meta::hash::{fx_hash64, hash64};
use crate::meta::model::{
    latest, latest_given, HashedSlotView, SlotView, HASHED_SLOT_LEN, SLOT_LEN,
};
use crate::page::{PageId, RawPageId};
use crate::snapshot::SnapshotId;

verus! {

/// Represents the index of one of the metadata slots. Valid values are 0 and 1.
#[derive(Copy, Clone, PartialEq, Eq, Debug)]
pub struct SlotIndex(pub usize);

impl Deref for SlotIndex {
    type Target = usize;

    fn deref(&self) -> (index: &usize)
        ensures
            *index == self.0,
    {
        &self.0
    }
}

/// Converts 0 into 1, and 1 into 0.
impl Not for SlotIndex {
    type Output = SlotIndex;

    fn not(self) -> (other: SlotIndex)
        ensures
            other.0 == 0 || other.0 == 1,
            other.0 % 2 != self.0 % 2,
    {
        SlotIndex(1 - self.0 % 2)
    }
}

impl vstd::std_specs::ops::NotSpecImpl for SlotIndex {
    open spec fn obeys_not_spec() -> bool {
        true
    }

    open spec fn not_req(self) -> bool {
        true
    }

    open spec fn not_spec(self) -> SlotIndex {
        SlotIndex((1 - self.0 % 2) as usize)
    }
}

/// Fixed-size portion of the metadata slot (excluding the hash).
///
/// This contain the following information:
///
/// * latest snapshot ID;
/// * root node information;
/// * number of allocated pages;
/// * orphan page information.
#[derive(Debug)]
pub struct MetadataSlot {
    /// Latest snapshot committed
    pub(crate) snapshot_id: SnapshotId,
    /// Hash of the root node
    pub(crate) root_node_hash: [u8; 32],
    /// Link to the page containing the root node
    pub(crate) root_node_page_id: RawPageId,
    /// Number of pages contained in the data file
    pub(crate) page_count: u32,
    /// Total size of the orphan page list (including reclaimed pages)
    pub(crate) orphan_pages_len: u32,
    /// Number of reclaimed pages from the orphan page list
    pub(crate) reclaimed_orphans_len: u32,
}

impl View for MetadataSlot {
    type V = SlotView;

    open(crate) spec fn view(&self) -> SlotView {
        SlotView {
            snapshot_id: self.snapshot_id,
            root_node_hash: self.root_node_hash@,
            root_node_page_id: self.root_node_page_id,
            page_count: self.page_count,
            orphan_pages_len: self.orphan_pages_len,
            reclaimed_orphans_len: self.reclaimed_orphans_len,
        }
    }
}

impl Clone for MetadataSlot {
    fn clone(&self) -> (copy: Self)
        ensures
            copy@ == self@,
    {
        MetadataSlot {
            snapshot_id: self.snapshot_id,
            root_node_hash: self.root_node_hash,
            root_node_page_id: self.root_node_page_id,
            page_count: self.page_count,
            orphan_pages_len: self.orphan_pages_len,
            reclaimed_orphans_len: self.reclaimed_orphans_len,
        }
    }
}

impl MetadataSlot {
    /// Every slot holds a valid value.
    pub proof fn view_is_valid(&self)
        ensures
            self@.valid(),
    {
    }

    /// Returns the latest snapshot committed.
    #[must_use]
    pub fn snapshot_id(&self) -> (id: SnapshotId)
        ensures
            id == self@.snapshot_id,
    {
        self.snapshot_id
    }

    /// Returns the hash of the root node.
    #[must_use]
    pub fn root_node_hash(&self) -> (hash: [u8; 32])
        ensures
            hash@ == self@.root_node_hash,
    {
        self.root_node_hash
    }

    /// Returns the ID of the page containing the root node.
    #[must_use]
    pub fn root_node_page_id(&self) -> (id: Option<PageId>)
        ensures
            id is Some <==> self@.root_node_page_id != 0,
            id matches Some(id) ==> id@ == self@.root_node_page_id,
    {
        PageId::new(self.root_node_page_id)
    }

    /// Returns the total number of pages contained in the data file.
    ///
    /// This count includes both used and orphaned pages.
    #[must_use]
    pub fn page_count(&self) -> (count: u32)
        ensures
            count == self@.page_count,
    {
        self.page_count
    }

    /// Sets the latest snapshot committed.
    pub fn set_snapshot_id(&mut self, snapshot_id: SnapshotId)
        ensures
            final(self)@ == (SlotView { snapshot_id, ..old(self)@ }),
    {
        self.snapshot_id = snapshot_id;
    }

    /// Increments the snapshot by 1.
    pub fn inc_snapshot_id(&mut self)
        requires
            old(self)@.snapshot_id < u64::MAX,
        ensures
            final(self)@ == (SlotView {
                snapshot_id: (old(self)@.snapshot_id + 1) as u64,
                ..old(self)@
            }),
    {
        self.snapshot_id = self.snapshot_id + 1;
    }

    /// Sets the hash of the root node.
    pub fn set_root_node_hash(&mut self, root_node_hash: [u8; 32])
        ensures
            final(self)@ == (SlotView { root_node_hash: root_node_hash@, ..old(self)@ }),
    {
        self.root_node_hash = root_node_hash;
    }

    /// Sets the ID of the page containing the root node.
    pub fn set_root_node_page_id(&mut self, root_node_page_id: Option<PageId>)
        ensures
            final(self)@ == (SlotView {
                root_node_page_id: match root_node_page_id {
                    Some(id) => id@,
                    None => 0,
                },
                ..old(self)@
            }),
    {
        self.root_node_page_id = match root_node_page_id {
            Some(id) => id.raw(),
            None => 0,
        };
    }

    /// Sets the total number of pages contained in the data file.
    ///
    /// This count must include both used and orphaned pages.
    pub fn set_page_count(&mut self, page_count: u32)
        ensures
            final(self)@ == (SlotView { page_count, ..old(self)@ }),
    {
        self.page_count = page_count;
    }

    /// Returns the range of reclaimed pages in the orphan page list.
    #[must_use]
    pub fn reclaimed_range(&self) -> (range: Range<usize>)
        ensures
            range.start == 0,
            range.end == self@.reclaimed_orphans_len,
    {
        0..self.reclaimed_orphans_len as usize
    }

    /// Tells whether no more orphan pages were reclaimed than were ever listed.
    #[must_use]
    pub fn is_ordered(&self) -> (ordered: bool)
        ensures
            ordered == self@.ordered(),
    {
        self.reclaimed_orphans_len <= self.orphan_pages_len
    }

    /// Returns the range of pages that are actually orphans (not reclaimed) in the orphan page
    /// list.
    #[must_use]
    pub fn actual_orphans_range(&self) -> (range: Range<usize>)
        requires
            self@.ordered(),
        ensures
            range.start == self@.reclaimed_orphans_len,
            range.end == self@.orphan_pages_len,
    {
        self.reclaimed_orphans_len as usize..self.orphan_pages_len as usize
    }

    /// Appends the stored form of this slot to `out`.
    pub(crate) fn write_to(&self, out: &mut Vec<u8>)
        ensures
            final(out)@ == old(out)@ + self@.bytes(),
    {
        push_u64(out, self.snapshot_id);
        let ghost start = out@;
        let mut i: usize = 0;
        while i < 32
            invariant
                i <= 32,
                out@ == start + self.root_node_hash@.take(i as int),
            decreases 32 - i,
        {
            out.push(self.root_node_hash[i]);
            i = i + 1;
            assert(out@ =~= start + self.root_node_hash@.take(i as int));
        }
        assert(self.root_node_hash@.take(32) =~= self.root_node_hash@);
        push_u32(out, self.root_node_page_id);
        push_u32(out, self.page_count);
        push_u32(out, self.orphan_pages_len);
        push_u32(out, self.reclaimed_orphans_len);
        proof {
            reveal(SlotView::bytes);
            assert(out@ =~= old(out)@ + self@.bytes());
        }
    }

    /// Returns the stored form of this slot.
    #[must_use]
    pub fn as_bytes(&self) -> (bytes: Vec<u8>)
        ensures
            bytes@ == self@.bytes(),
            bytes@.len() == SLOT_LEN,
    {
        let mut out: Vec<u8> = Vec::with_capacity(SLOT_LEN);
        self.write_to(&mut out);
        proof {
            slot_encode_decode(self@);
            assert(out@ =~= self@.bytes());
        }
        out
    }

    /// Reads the slot that is stored at offset `at`.
    pub(crate) fn read_from(bytes: &[u8], at: usize) -> (slot: Self)
        requires
            at + SLOT_LEN <= bytes.len(),
        ensures
            slot@ == SlotView::from_bytes(bytes@.subrange(at as int, at + 56)),
    {
        let mut root_node_hash = [0u8; 32];
        let mut i: usize = 0;
        while i < 32
            invariant
                i <= 32,
                at + SLOT_LEN <= bytes.len(),
                forall|j: int| 0 <= j < i ==> root_node_hash@[j] == bytes@[at + 8 + j],
            decreases 32 - i,
        {
            root_node_hash[i] = bytes[at + 8 + i];
            i = i + 1;
        }
        let slot = MetadataSlot {
            snapshot_id: read_u64(bytes, at),
            root_node_hash,
            root_node_page_id: read_u32(bytes, at + 40),
            page_count: read_u32(bytes, at + 44),
            orphan_pages_len: read_u32(bytes, at + 48),
            reclaimed_orphans_len: read_u32(bytes, at + 52),
        };
        proof {
            reveal(SlotView::from_bytes);
            let b = bytes@.subrange(at as int, at + 56);
            assert(b.subrange(0, 8) =~= bytes@.subrange(at as int, at + 8));
            assert(b.subrange(8, 40) =~= root_node_hash@);
            assert(b.subrange(40, 44) =~= bytes@.subrange(at + 40, at + 44));
            assert(b.subrange(44, 48) =~= bytes@.subrange(at + 44, at + 48));
            assert(b.subrange(48, 52) =~= bytes@.subrange(at + 48, at + 52));
            assert(b.subrange(52, 56) =~= bytes@.subrange(at + 52, at + 56));
        }
        slot
    }

    /// Computes the hash for this slot.
    #[must_use]
    pub fn hash(&self) -> (hash: u64)
        ensures
            hash == fx_hash64(self@.bytes()),
    {
        hash64(self.as_bytes().as_slice())
    }
}

/// Fixed-size portion of the metadata slot (including the hash).
#[derive(Debug)]
pub struct HashedMetadataSlot {
    pub(crate) meta: MetadataSlot,
    pub(crate) hash: u64,
}

impl View for HashedMetadataSlot {
    type V = HashedSlotView;

    open(crate) spec fn view(&self) -> HashedSlotView {
        HashedSlotView { meta: self.meta@, hash: self.hash }
    }
}

impl Clone for HashedMetadataSlot {
    fn clone(&self) -> (copy: Self)
        ensures
            copy@ == self@,
    {
        HashedMetadataSlot { meta: self.meta.clone(), hash: self.hash }
    }
}

impl Deref for HashedMetadataSlot {
    type Target = MetadataSlot;

    fn deref(&self) -> (meta: &MetadataSlot)
        ensures
            meta@ == self@.meta,
    {
        &self.meta
    }
}

impl DerefMut for HashedMetadataSlot {
    fn deref_mut(&mut self) -> (meta: &mut MetadataSlot)
        ensures
            meta@ == old(self)@.meta,
            final(self)@ == (HashedSlotView { meta: final(meta)@, hash: old(self)@.hash }),
    {
        &mut self.meta
    }
}

impl AsRef<MetadataSlot> for HashedMetadataSlot {
    fn as_ref(&self) -> (meta: &MetadataSlot)
        ensures
            meta@ == self@.meta,
    {
        &self.meta
    }
}

impl AsMut<MetadataSlot> for HashedMetadataSlot {
    fn as_mut(&mut self) -> (meta: &mut MetadataSlot)
        ensures
            meta@ == old(self)@.meta,
            final(self)@ == (HashedSlotView { meta: final(meta)@, hash: old(self)@.hash }),
    {
        &mut self.meta
    }
}

/// Tells whether all of the bytes are zero.
fn all_zero(bytes: &[u8; 32]) -> (zero: bool)
    ensures
        zero == (bytes@ == zeros(32)),
{
    let mut i: usize = 0;
    while i < 32
        invariant
            i <= 32,
            forall|j: int| 0 <= j < i ==> bytes@[j] == 0,
        decreases 32 - i,
    {
        if bytes[i] != 0 {
            assert(bytes@[i as int] != zeros(32)[i as int]);
            return false;
        }
        i = i + 1;
    }
    assert(bytes@ =~= zeros(32));
    true
}

/// Tells whether two hashes are the same.
fn same_hash(a: &[u8; 32], b: &[u8; 32]) -> (same: bool)
    ensures
        same == (a@ == b@),
{
    let mut i: usize = 0;
    while i < 32
        invariant
            i <= 32,
            forall|j: int| 0 <= j < i ==> a@[j] == b@[j],
        decreases 32 - i,
    {
        if a[i] != b[i] {
            return false;
        }
        i = i + 1;
    }
    assert(a@ =~= b@);
    true
}

impl PartialEq for MetadataSlot {
    fn eq(&self, other: &MetadataSlot) -> (same: bool)
        ensures
            same <==> {
                &&& self@.snapshot_id == other@.snapshot_id
                &&& self@.root_node_hash == other@.root_node_hash
                &&& self@.root_node_page_id == other@.root_node_page_id
                &&& self@.page_count == other@.page_count
                &&& self@.orphan_pages_len == other@.orphan_pages_len
                &&& self@.reclaimed_orphans_len == other@.reclaimed_orphans_len
            },
    {
        self.snapshot_id == other.snapshot_id && same_hash(
            &self.root_node_hash,
            &other.root_node_hash,
        ) && self.root_node_page_id == other.root_node_page_id && self.page_count
            == other.page_count && self.orphan_pages_len == other.orphan_pages_len
            && self.reclaimed_orphans_len == other.reclaimed_orphans_len
    }
}

impl vstd::std_specs::cmp::PartialEqSpecImpl for MetadataSlot {
    open spec fn obeys_eq_spec() -> bool {
        true
    }

    open spec fn eq_spec(&self, other: &MetadataSlot) -> bool {
        self@ == other@
    }
}

impl Eq for MetadataSlot {

}

impl PartialEq for HashedMetadataSlot {
    fn eq(&self, other: &HashedMetadataSlot) -> (same: bool)
        ensures
            same <==> self@.meta == other@.meta && self@.hash == other@.hash,
    {
        self.meta == other.meta && self.hash == other.hash
    }
}

impl vstd::std_specs::cmp::PartialEqSpecImpl for HashedMetadataSlot {
    open spec fn obeys_eq_spec() -> bool {
        true
    }

    open spec fn eq_spec(&self, other: &HashedMetadataSlot) -> bool {
        self@ == other@
    }
}

impl Eq for HashedMetadataSlot {

}

impl HashedMetadataSlot {
    /// Returns `true` if this metadata slot is uninitialized (its byte representation is all
    /// zeros).
    ///
    /// Uninitialized metadata is considered valid, even though the hash won't compute correctly.
    #[must_use]
    pub fn is_empty(&self) -> (empty: bool)
        ensures
            empty == self@.is_empty(),
    {
        proof {
            empty_slot_fields(self@);
        }
        self.meta.snapshot_id == 0 && self.hash == 0 && self.meta.root_node_page_id == 0
            && self.meta.page_count == 0 && self.meta.orphan_pages_len == 0
            && self.meta.reclaimed_orphans_len == 0 && all_zero(&self.meta.root_node_hash)
    }

    /// Recomputes the hash for this metadata slots.
    pub fn update_hash(&mut self)
        ensures
            final(self)@ == old(self)@.hashed(),
    {
        self.hash = self.meta.hash();
    }

    /// Checks if the metadata is not corrupted, given the hash that its contents have.
    pub fn verify_integrity_given(&self, computed: u64) -> (result: Result<
        (),
        CorruptedMetadataError,
    >)
        ensures
            result is Ok <==> self@.intact_given(computed),
    {
        // Special case: the metadata is uninitialized. In this case, the hash won't match, so quit
        // early.
        if self.is_empty() {
            return Ok(());
        }
        // Check that the number of reclaimed pages doesn't exceed the total number of orphan
        // pages.
        if !self.meta.is_ordered() {
            return Err(CorruptedMetadataError);
        }
        // Check the hash.
        if self.hash != computed {
            return Err(CorruptedMetadataError);
        }
        Ok(())
    }

    /// Checks if the metadata is not corrupted.
    pub fn verify_integrity(&self) -> (result: Result<(), CorruptedMetadataError>)
        ensures
            result is Ok <==> self@.intact(),
    {
        self.verify_integrity_given(self.meta.hash())
    }

    /// Appends the stored form of this slot to `out`.
    pub(crate) fn write_to(&self, out: &mut Vec<u8>)
        ensures
            final(out)@ == old(out)@ + self@.bytes(),
    {
        self.meta.write_to(out);
        push_u64(out, self.hash);
        assert(out@ =~= old(out)@ + self@.bytes());
    }

    /// Reads the slot that is stored at offset `at`.
    pub(crate) fn read_from(bytes: &[u8], at: usize) -> (slot: Self)
        requires
            at + HASHED_SLOT_LEN <= bytes.len(),
        ensures
            slot@ == HashedSlotView::from_bytes(bytes@.subrange(at as int, at + 64)),
    {
        let slot = HashedMetadataSlot {
            meta: MetadataSlot::read_from(bytes, at),
            hash: read_u64(bytes, at + 56),
        };
        proof {
            let b = bytes@.subrange(at as int, at + 64);
            assert(b.subrange(0, 56) =~= bytes@.subrange(at as int, at + 56));
            assert(b.subrange(56, 64) =~= bytes@.subrange(at + 56, at + 64));
        }
        slot
    }
}

/// The two metadata slots.
#[derive(Debug)]
pub struct MetadataSlots {
    pub(crate) slot0: HashedMetadataSlot,
    pub(crate) slot1: HashedMetadataSlot,
}

impl View for MetadataSlots {
    type V = (HashedSlotView, HashedSlotView);

    open(crate) spec fn view(&self) -> (HashedSlotView, HashedSlotView) {
        (self.slot0@, self.slot1@)
    }
}

impl MetadataSlots {
    /// Puts two slots together.
    pub fn new(slot0: HashedMetadataSlot, slot1: HashedMetadataSlot) -> (slots: Self)
        ensures
            slots@ == (slot0@, slot1@),
    {
        MetadataSlots { slot0, slot1 }
    }

    /// Returns the index of the most up-to-date and consistent metadata slot, given the hashes
    /// that the contents of the two slots have.
    pub fn latest_slot_index_given(&self, hash0: u64, hash1: u64) -> (result: Result<
        SlotIndex,
        CorruptedMetadataError,
    >)
        ensures
            match result {
                Ok(index) => latest_given(self@.0, self@.1, hash0, hash1) == Some(index.0 as int),
                Err(_) => latest_given(self@.0, self@.1, hash0, hash1) is None,
            },
    {
        let s0 = &self.slot0;
        let s1 = &self.slot1;

        if s0.is_empty() && s1.is_empty() {
            // If both slots are "empty" (zero bytes) it means this metadata is brand new. We can
            // return an arbitrary index
            return Ok(SlotIndex(0));
        }
        // Check if any slot is corrupted. If one of them is corrupted, return the index of the
        // good one
        match (s0.verify_integrity_given(hash0), s1.verify_integrity_given(hash1)) {
            (Ok(_), Ok(_)) => (),
            (Ok(_), Err(_)) => return Ok(SlotIndex(0)),
            (Err(_), Ok(_)) => return Ok(SlotIndex(1)),
            (Err(_), Err(_)) => return Err(CorruptedMetadataError),
        }

        // If both slots are not corrupted, return the one that has the highest snapshot ID
        if s0.meta.snapshot_id > s1.meta.snapshot_id {
            Ok(SlotIndex(0))
        } else if s0.meta.snapshot_id < s1.meta.snapshot_id {
            Ok(SlotIndex(1))
        } else if *s0 == *s1 {
            // If the snapshot ID is the same, then the two slots must have the same contents
            Ok(SlotIndex(0))
        } else {
            Err(CorruptedMetadataError)
        }
    }

    /// Returns the index of the most up-to-date and consistent metadata slot.
    pub fn latest_slot_index(&self) -> (result: Result<SlotIndex, CorruptedMetadataError>)
        ensures
            match result {
                Ok(index) => latest(self@.0, self@.1) == Some(index.0 as int),
                Err(_) => latest(self@.0, self@.1) is None,
            },
    {
        self.latest_slot_index_given(self.slot0.meta.hash(), self.slot1.meta.hash())
    }
}

} // verus!
