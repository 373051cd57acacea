use core::ops::Not;
use triemeta::bytes::{is_little_endian, push_u32, push_u64, read_u32, read_u64};
use triemeta::meta::{
    CorruptedMetadataError, MetadataManager, MetadataSlots, OrphanPage, SlotIndex,
};
use triemeta::page::PageId;

fn orphan(page_id: u32, orphaned_at: u64) -> OrphanPage {
    OrphanPage::new(PageId::new(page_id).expect("invalid page id"), orphaned_at)
}

fn new_manager() -> MetadataManager {
    MetadataManager::from_file(&[]).expect("failed to initialize metadata manager")
}

fn open(contents: &[u8]) -> Result<MetadataManager, CorruptedMetadataError> {
    MetadataManager::try_from_file(contents).expect("file cannot be opened")
}

/// Stored form of a slot with the right hash.
fn slot(snapshot_id: u64, page_count: u32, orphan_pages_len: u32, reclaimed: u32) -> Vec<u8> {
    let mut bytes = Vec::new();
    bytes.extend_from_slice(&snapshot_id.to_ne_bytes());
    bytes.extend_from_slice(&[7; 32]);
    bytes.extend_from_slice(&3u32.to_ne_bytes());
    bytes.extend_from_slice(&page_count.to_ne_bytes());
    bytes.extend_from_slice(&orphan_pages_len.to_ne_bytes());
    bytes.extend_from_slice(&reclaimed.to_ne_bytes());
    let hash = fxhash::hash64(&bytes[..]);
    bytes.extend_from_slice(&hash.to_ne_bytes());
    bytes
}

/// Stored form of an entry of the orphan page list.
fn entry(page_id: u32, orphaned_at: u64) -> Vec<u8> {
    let mut bytes = Vec::new();
    bytes.extend_from_slice(&page_id.to_ne_bytes());
    bytes.extend_from_slice(&[0; 4]);
    bytes.extend_from_slice(&orphaned_at.to_ne_bytes());
    bytes
}

fn file(slot0: &[u8], slot1: &[u8]) -> Vec<u8> {
    let mut bytes = Vec::new();
    bytes.extend_from_slice(slot0);
    bytes.extend_from_slice(slot1);
    bytes
}

#[test]
fn numbers_are_stored_in_native_order() {
    let mut bytes = Vec::new();
    push_u32(&mut bytes, 0x01020304);
    push_u64(&mut bytes, 0x1122334455667788);
    assert_eq!(bytes[..4], 0x01020304u32.to_ne_bytes());
    assert_eq!(bytes[4..], 0x1122334455667788u64.to_ne_bytes());
    assert_eq!(read_u32(&bytes, 0), 0x01020304);
    assert_eq!(read_u64(&bytes, 4), 0x1122334455667788);
    assert_eq!(is_little_endian(), 1u32.to_ne_bytes() == 1u32.to_le_bytes());
}

#[test]
fn page_ids_are_not_zero() {
    assert_eq!(PageId::new(0), None);
    assert_eq!(PageId::new(5).map(PageId::raw), Some(5));
    assert_eq!(PageId::new(5).and_then(PageId::inc).map(PageId::raw), Some(6));
    assert_eq!(PageId::new(u32::MAX).and_then(PageId::inc), None);
}

#[test]
fn slot_index_flips() {
    assert_eq!(SlotIndex(0).not(), SlotIndex(1));
    assert_eq!(SlotIndex(1).not(), SlotIndex(0));
    assert_eq!(*SlotIndex(1), 1);
}

#[test]
fn orphan_fields() {
    let page = orphan(9, 4);
    assert_eq!(page.page_id().raw(), 9);
    assert_eq!(page.orphaned_at(), 4);
    assert_eq!(page.padding, 0);
}

#[test]
fn new_metadata_is_empty() {
    let mut manager = new_manager();
    assert_eq!(manager.active_slot().snapshot_id(), 0);
    assert_eq!(manager.active_slot().root_node_hash(), [0; 32]);
    assert_eq!(manager.active_slot().root_node_page_id(), None);
    assert_eq!(manager.active_slot().page_count(), 0);
    assert!(manager.active_slot().is_empty());
    assert!(!manager.dirty_slot().is_empty());
    assert!(manager.orphan_pages().is_empty());
    assert_eq!(manager.orphan_pages().len(), 0);
    assert_eq!(manager.orphan_pages().capacity(), 248);
    assert_eq!(manager.image_len(), 4096);
    assert_eq!(manager.to_bytes().len(), 4096);
    assert_eq!(manager.orphan_pages().pop(u64::MAX), None);
}

#[test]
fn stored_form() {
    let mut manager = new_manager();
    let dirty = manager.dirty_slot_mut();
    dirty.set_root_node_hash([7; 32]);
    dirty.set_root_node_page_id(PageId::new(3));
    dirty.set_page_count(0x01020304);
    manager.orphan_pages().push(orphan(0xaabb, 0x1122)).expect("push failed");
    manager.commit();
    let image = manager.to_bytes();

    // The second slot was committed, the first one is its successor
    assert_eq!(image[64..128], slot(1, 0x01020304, 1, 0));
    assert_eq!(image[0..8], 2u64.to_ne_bytes());
    assert_eq!(image[8..64], image[72..128]);
    assert_eq!(image[128..144], entry(0xaabb, 0x1122));
    assert!(image[144..].iter().all(|byte| *byte == 0));
    assert_eq!(image[64..120], manager.active_slot().as_bytes());
    assert_eq!(manager.active_slot().hash(), fxhash::hash64(&image[64..120]));
    assert_eq!(open(&image).expect("corrupted").to_bytes(), image);
}

#[test]
fn slots_alternate() {
    let mut manager = new_manager();
    manager.commit();
    assert_eq!(manager.to_bytes()[64..72], 1u64.to_ne_bytes());
    manager.commit();
    assert_eq!(manager.to_bytes()[0..8], 2u64.to_ne_bytes());
    assert_eq!(manager.to_bytes()[64..72], 3u64.to_ne_bytes());
}

#[test]
fn highest_snapshot_wins() {
    let manager = open(&file(&slot(4, 40, 0, 0), &slot(5, 50, 0, 0))).expect("corrupted");
    assert_eq!(manager.active_slot().page_count(), 50);
    assert_eq!(manager.dirty_slot().snapshot_id(), 6);
    assert_eq!(manager.dirty_slot().page_count(), 50);
    let manager = open(&file(&slot(6, 40, 0, 0), &slot(5, 50, 0, 0))).expect("corrupted");
    assert_eq!(manager.active_slot().page_count(), 40);
}

#[test]
fn same_snapshot_must_have_same_contents() {
    let same = open(&file(&slot(4, 40, 0, 0), &slot(4, 40, 0, 0))).expect("corrupted");
    assert_eq!(same.active_slot().page_count(), 40);
    let different = open(&file(&slot(4, 40, 0, 0), &slot(4, 41, 0, 0)));
    assert_eq!(different.err(), Some(CorruptedMetadataError));
}

#[test]
fn corrupted_slot_is_ignored() {
    let good = slot(4, 40, 0, 0);
    for index in 0..64 {
        let mut bad = slot(5, 50, 0, 0);
        bad[index] ^= 0x10;
        let manager = open(&file(&good, &bad)).expect("corrupted");
        assert_eq!(manager.active_slot().page_count(), 40);
        let manager = open(&file(&bad, &good)).expect("corrupted");
        assert_eq!(manager.active_slot().page_count(), 40);
        assert_eq!(open(&file(&bad, &bad)).err(), Some(CorruptedMetadataError));
    }
}

#[test]
fn empty_slot_is_valid() {
    let manager = open(&file(&slot(4, 40, 0, 0), &[0; 64])).expect("corrupted");
    assert_eq!(manager.active_slot().page_count(), 40);
    // An empty slot has snapshot zero
    let manager = open(&file(&slot(0, 40, 0, 0), &[0; 64]));
    assert_eq!(manager.err(), Some(CorruptedMetadataError));
}

#[test]
fn more_reclaimed_than_listed_is_corrupted() {
    assert!(open(&file(&slot(4, 40, 2, 2), &[0; 64])).is_ok());
    let manager = open(&file(&slot(4, 40, 2, 3), &[0; 64])).expect("corrupted");
    assert!(manager.active_slot().is_empty());
    let both = open(&file(&slot(4, 40, 2, 3), &slot(5, 50, 0, 1)));
    assert_eq!(both.err(), Some(CorruptedMetadataError));
}

#[test]
fn integrity_given_hash() {
    let manager = open(&file(&slot(4, 40, 1, 0), &[0; 64])).expect("corrupted");
    let active = manager.active_slot();
    assert_eq!(active.verify_integrity(), Ok(()));
    assert_eq!(active.verify_integrity_given(active.hash()), Ok(()));
    assert_eq!(active.verify_integrity_given(active.hash() ^ 1), Err(CorruptedMetadataError));
    assert_eq!(manager.dirty_slot().verify_integrity(), Err(CorruptedMetadataError));

    let slots = MetadataSlots::new(active.clone(), manager.dirty_slot().clone());
    assert_eq!(slots.latest_slot_index(), Ok(SlotIndex(0)));
    let hash = active.hash();
    assert_eq!(slots.latest_slot_index_given(hash, hash ^ 1), Ok(SlotIndex(0)));
    assert_eq!(slots.latest_slot_index_given(hash ^ 1, hash), Ok(SlotIndex(1)));
    assert_eq!(slots.latest_slot_index_given(hash, hash), Ok(SlotIndex(1)));
    assert_eq!(slots.latest_slot_index_given(hash ^ 1, hash ^ 1), Err(CorruptedMetadataError));
}

#[test]
fn short_file_is_extended() {
    let mut contents = file(&slot(4, 40, 1, 0), &[0; 64]);
    contents.extend_from_slice(&entry(9, 2)[..4]);
    let mut manager = open(&contents).expect("corrupted");
    assert_eq!(manager.orphan_pages().iter(), [orphan(9, 0)]);
    assert_eq!(manager.image_len(), 4096);
}

#[test]
fn file_that_cannot_be_opened() {
    assert!(MetadataManager::try_from_file(&[0; 4096]).is_some());
    assert!(MetadataManager::try_from_file(&[0; 4097]).is_none());
    assert!(MetadataManager::try_from_file(&[0; 4095]).is_some());
    assert!(MetadataManager::try_from_file(&[0; 4112]).is_some());
    // A corrupted file is reported whatever its size is
    let corrupted = MetadataManager::try_from_file(&[1; 4097]).map(Result::err);
    assert_eq!(corrupted, Some(Some(CorruptedMetadataError)));
    let last = file(&slot(u64::MAX, 40, 0, 0), &[0; 64]);
    assert!(MetadataManager::try_from_file(&last).is_none());
    let last_but_one = file(&slot(u64::MAX - 1, 40, 0, 0), &[0; 64]);
    assert!(MetadataManager::try_from_file(&last_but_one).is_some());
}

#[test]
fn counters_out_of_bounds() {
    let manager = open(&file(&slot(4, 40, 249, 0), &[0; 64])).expect("corrupted");
    assert!(!manager.orphans_in_bounds());
    assert!(manager.can_commit());
    let manager = open(&file(&slot(4, 40, 248, 0), &[0; 64])).expect("corrupted");
    assert!(manager.orphans_in_bounds());
    let mut manager = open(&file(&slot(4, 40, 249, 200), &[0; 64])).expect("corrupted");
    assert!(!manager.can_commit());
    assert!(manager.orphan_pages().can_push(&orphan(1, 0)));
}

#[test]
fn list_grows() {
    let mut manager = new_manager();
    for i in 1..=248 {
        manager.orphan_pages().push_within_capacity(orphan(i, 1)).expect("push failed");
    }
    assert!(manager.orphan_pages().is_full());
    assert_eq!(
        manager.orphan_pages().push_within_capacity(orphan(249, 1)),
        Err(orphan(249, 1))
    );
    assert_eq!(manager.orphan_pages().len(), 248);
    assert_eq!(manager.grown_len(), Some(8192));
    manager.orphan_pages().push(orphan(249, 1)).expect("push failed");
    assert_eq!(manager.orphan_pages().capacity(), 504);
    assert_eq!(manager.orphan_pages().len(), 249);
    assert_eq!(manager.image_len(), 8192);
    let orphans = manager.orphan_pages().iter();
    for i in 0..249 {
        assert_eq!(orphans[i as usize], orphan(i + 1, 1));
    }
    manager.commit();
    let mut manager = open(&manager.to_bytes()).expect("corrupted");
    assert_eq!(manager.orphan_pages().iter(), orphans);
    assert_eq!(manager.orphan_pages().capacity(), 504);
}

#[test]
fn orphans_are_added_in_order() {
    let mut manager = new_manager();
    assert!(manager.orphan_pages().can_push(&orphan(1, 0)));
    manager.orphan_pages().push(orphan(1, 3)).expect("push failed");
    assert!(!manager.orphan_pages().can_push(&orphan(2, 2)));
    assert!(manager.orphan_pages().can_push(&orphan(2, 3)));
    // A reclaimed page still counts, as long as it is listed
    manager.orphan_pages().pop(3).expect("pop failed");
    assert!(!manager.orphan_pages().can_push(&orphan(2, 2)));
    manager.commit();
    manager.commit();
    assert!(manager.orphan_pages().can_push(&orphan(2, 2)));
    for i in 1..=248 {
        manager.orphan_pages().push(orphan(i, 4)).expect("push failed");
    }
    assert!(manager.orphan_pages().is_full());
    assert!(!manager.orphan_pages().can_push(&orphan(249, 3)));
    assert!(manager.orphan_pages().can_push(&orphan(249, 4)));
}

#[test]
fn orphans_are_reclaimed_in_order() {
    let mut manager = new_manager();
    for (page_id, orphaned_at) in [(1, 1), (2, 3), (3, 3), (4, 6)] {
        manager.orphan_pages().push(orphan(page_id, orphaned_at)).expect("push failed");
    }
    assert_eq!(manager.orphan_pages().pop(0), None);
    assert_eq!(manager.orphan_pages().pop(3), Some(orphan(1, 1)));
    assert_eq!(manager.orphan_pages().pop(3), Some(orphan(2, 3)));
    assert_eq!(manager.orphan_pages().pop(3), Some(orphan(3, 3)));
    assert_eq!(manager.orphan_pages().pop(5), None);
    assert_eq!(manager.orphan_pages().iter(), [orphan(4, 6)]);
    assert_eq!(manager.orphan_pages().pop(6), Some(orphan(4, 6)));
    assert!(manager.orphan_pages().is_empty());
}

#[test]
fn only_the_first_orphan_is_considered() {
    let mut contents = file(&slot(4, 40, 2, 0), &[0; 64]);
    contents.extend_from_slice(&entry(1, 5));
    contents.extend_from_slice(&entry(2, 1));
    let mut manager = open(&contents).expect("corrupted");
    assert_eq!(manager.orphan_pages().iter(), [orphan(1, 5), orphan(2, 1)]);
    assert_eq!(manager.orphan_pages().pop(4), None);
    assert_eq!(manager.orphan_pages().len(), 2);
}

#[test]
fn commit_compacts_list() {
    let mut manager = new_manager();
    for i in 1..=4 {
        manager.orphan_pages().push(orphan(i, 1)).expect("push failed");
    }
    manager.commit();
    for _ in 0..3 {
        manager.orphan_pages().pop(1).expect("pop failed");
    }
    // The entries were not reclaimed before the last commit, so they stay
    manager.commit();
    assert_eq!(manager.active_slot().actual_orphans_range(), 3..4);
    assert_eq!(manager.active_slot().reclaimed_range(), 0..3);
    manager.orphan_pages().push(orphan(5, 1)).expect("push failed");
    manager.commit();
    assert_eq!(manager.active_slot().actual_orphans_range(), 0..2);
    assert_eq!(manager.orphan_pages().iter(), [orphan(4, 1), orphan(5, 1)]);
    assert_eq!(manager.to_bytes()[128..132], 4u32.to_ne_bytes());
    assert_eq!(manager.to_bytes()[144..148], 5u32.to_ne_bytes());
    assert_eq!(manager.to_bytes()[160..164], 3u32.to_ne_bytes());
}

#[test]
fn reset_discards_changes() {
    let mut manager = new_manager();
    manager.orphan_pages().push(orphan(1, 1)).expect("push failed");
    manager.commit();
    manager.dirty_slot_mut().set_page_count(5);
    manager.dirty_slot_mut().set_snapshot_id(77);
    manager.orphan_pages().push(orphan(2, 1)).expect("push failed");
    manager.orphan_pages().pop(1).expect("pop failed");
    manager.reset_dirty_slot();
    assert_eq!(manager.dirty_slot().page_count(), 0);
    assert_eq!(manager.dirty_slot().snapshot_id(), 2);
    assert_eq!(manager.orphan_pages().iter(), [orphan(1, 1)]);
}

#[test]
fn wiped_metadata_is_new() {
    let mut manager = new_manager();
    for i in 1..=300 {
        manager.orphan_pages().push(orphan(i, 1)).expect("push failed");
    }
    manager.dirty_slot_mut().set_page_count(5);
    manager.commit();
    manager.commit();
    manager.wipe();
    assert_eq!(manager.to_bytes(), new_manager().to_bytes());
    assert_eq!(manager.active_slot().snapshot_id(), 0);
    assert_eq!(manager.dirty_slot().snapshot_id(), 1);
    assert!(manager.orphan_pages().is_empty());
}

#[test]
fn crash_before_commit_keeps_last_commit() {
    let mut manager = new_manager();
    manager.dirty_slot_mut().set_page_count(5);
    manager.orphan_pages().push(orphan(1, 1)).expect("push failed");
    manager.commit();
    manager.dirty_slot_mut().set_page_count(6);
    manager.orphan_pages().pop(1).expect("pop failed");
    manager.orphan_pages().push(orphan(2, 1)).expect("push failed");

    let mut recovered = open(&manager.to_bytes()).expect("corrupted");
    assert_eq!(recovered.active_slot().page_count(), 5);
    assert_eq!(recovered.dirty_slot().page_count(), 5);
    assert_eq!(recovered.orphan_pages().iter(), [orphan(1, 1)]);
}

#[test]
fn crash_during_commit() {
    let mut manager = new_manager();
    for i in 1..=4 {
        manager.orphan_pages().push(orphan(i, 1)).expect("push failed");
    }
    manager.commit();
    for _ in 0..2 {
        manager.orphan_pages().pop(1).expect("pop failed");
    }
    manager.commit();
    manager.dirty_slot_mut().set_page_count(6);
    let before = manager.to_bytes();
    manager.begin_commit();
    let prepared = manager.to_bytes();

    // The prepared commit is complete
    let mut recovered = open(&prepared).expect("corrupted");
    assert_eq!(recovered.active_slot().page_count(), 6);
    assert_eq!(recovered.orphan_pages().iter(), [orphan(3, 1), orphan(4, 1)]);

    // Only a part of the dirty slot was saved
    for saved in 0..64 {
        let mut torn = prepared.clone();
        torn[64 + saved..128].copy_from_slice(&before[64 + saved..128]);
        let mut recovered = open(&torn).expect("corrupted");
        let page_count = recovered.active_slot().page_count();
        assert!(page_count == 0 || (page_count == 6 && torn == prepared));
        assert_eq!(recovered.orphan_pages().iter(), [orphan(3, 1), orphan(4, 1)]);
    }

    manager.finish_commit();
    assert_eq!(manager.active_slot().page_count(), 6);
    assert_eq!(manager.dirty_slot().snapshot_id(), 4);
}

#[test]
fn partly_stored_commit() {
    let mut manager = new_manager();
    for i in 1..=4 {
        manager.orphan_pages().push(orphan(i, 1)).expect("push failed");
    }
    manager.commit();
    for _ in 0..3 {
        manager.orphan_pages().pop(1).expect("pop failed");
    }
    manager.commit();
    manager.dirty_slot_mut().set_page_count(6);
    manager.orphan_pages().push(orphan(5, 2)).expect("push failed");
    let before = manager.to_bytes();
    manager.begin_commit();
    let after = manager.to_bytes();
    assert_eq!(before.len(), after.len());
    assert_ne!(before[128..176], after[128..176]);

    // Every other byte was stored, or all but the dirty slot
    for kept in [0, 1, 2] {
        let mut torn = before.clone();
        for i in 0..torn.len() {
            if i % 2 != kept && !(kept == 2 && (64..128).contains(&i)) {
                torn[i] = after[i];
            }
        }
        let mut recovered = open(&torn).expect("corrupted");
        assert_eq!(recovered.active_slot().page_count(), 0);
        assert_eq!(recovered.orphan_pages().iter(), [orphan(4, 1)]);
    }
}

#[test]
fn partly_finished_commit() {
    let mut manager = new_manager();
    manager.dirty_slot_mut().set_page_count(5);
    manager.orphan_pages().push(orphan(1, 1)).expect("push failed");
    manager.commit();
    manager.dirty_slot_mut().set_page_count(6);
    manager.orphan_pages().push(orphan(2, 2)).expect("push failed");
    manager.begin_commit();
    let saved = manager.to_bytes();
    manager.finish_commit();
    let finished = manager.to_bytes();
    assert_eq!(saved[..64], finished[..64]);

    // Only a part of the new dirty slot was saved
    for stored in 64..=128 {
        let mut torn = saved.clone();
        torn[64..stored].copy_from_slice(&finished[64..stored]);
        let mut recovered = open(&torn).expect("corrupted");
        assert_eq!(recovered.active_slot().page_count(), 6);
        assert_eq!(recovered.orphan_pages().iter(), [orphan(1, 1), orphan(2, 2)]);
    }
}

#[test]
fn slots_compare_by_contents() {
    let manager = open(&file(&slot(4, 40, 0, 0), &slot(4, 40, 0, 0))).expect("corrupted");
    let other = open(&file(&slot(4, 41, 0, 0), &[0; 64])).expect("corrupted");
    assert!(manager.active_slot() == &manager.active_slot().clone());
    assert!(manager.active_slot() != other.active_slot());
    assert!(manager.active_slot() != manager.dirty_slot());
    let meta: &triemeta::meta::MetadataSlot = manager.active_slot().as_ref();
    assert_eq!(meta.snapshot_id(), 4);
}

#[test]
fn snapshot_id_is_incremented() {
    let mut manager = new_manager();
    manager.dirty_slot_mut().inc_snapshot_id();
    assert_eq!(manager.dirty_slot().snapshot_id(), 2);
    manager.dirty_slot_mut().set_root_node_page_id(PageId::new(8));
    assert_eq!(manager.dirty_slot().root_node_page_id().map(PageId::raw), Some(8));
    manager.dirty_slot_mut().set_root_node_page_id(None);
    assert_eq!(manager.dirty_slot().root_node_page_id(), None);
    let dirty = manager.dirty_slot_mut();
    dirty.update_hash();
    assert_eq!(dirty.verify_integrity(), Ok(()));
}
