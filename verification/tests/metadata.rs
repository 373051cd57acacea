use std::collections::HashSet;
use triemeta::meta::{MetadataManager, OrphanPage};
use triemeta::page::PageId;

fn page_id(raw: u32) -> PageId {
    PageId::new(raw).expect("invalid page id")
}

fn new_manager() -> MetadataManager {
    MetadataManager::from_file(&[]).expect("failed to initialize metadata manager")
}

#[test]
fn persistence() {
    let mut manager = new_manager();
    let dirty = manager.dirty_slot_mut();

    dirty.set_root_node_hash([
        1, 2, 3, 4, 5, 6, 7, 8, 9, 10, 11, 12, 13, 14, 15, 16, 17, 18, 19, 20, 21, 22, 23, 24, 25,
        26, 27, 28, 29, 30, 31, 32,
    ]);
    dirty.set_root_node_page_id(Some(page_id(123)));
    dirty.set_page_count(456);
    manager.orphan_pages().push(OrphanPage::new(page_id(0xaa), 1)).expect("push failed");
    manager.orphan_pages().push(OrphanPage::new(page_id(0xbb), 2)).expect("push failed");
    manager.orphan_pages().push(OrphanPage::new(page_id(0xcc), 3)).expect("push failed");
    manager.orphan_pages().push(OrphanPage::new(page_id(0xdd), 4)).expect("push failed");

    manager.commit();
    let f = manager.to_bytes();
    drop(manager);

    let mut manager =
        MetadataManager::from_file(&f).expect("failed to initialize metadata manager");

    let active = manager.active_slot();
    assert_eq!(active.snapshot_id(), 1);
    assert_eq!(
        active.root_node_hash(),
        [
            1, 2, 3, 4, 5, 6, 7, 8, 9, 10, 11, 12, 13, 14, 15, 16, 17, 18, 19, 20, 21, 22, 23, 24,
            25, 26, 27, 28, 29, 30, 31, 32
        ]
    );
    assert_eq!(active.root_node_page_id(), Some(page_id(123)));
    assert_eq!(active.page_count(), 456);
    assert_eq!(
        manager.orphan_pages().iter(),
        [
            OrphanPage::new(page_id(0xaa), 1),
            OrphanPage::new(page_id(0xbb), 2),
            OrphanPage::new(page_id(0xcc), 3),
            OrphanPage::new(page_id(0xdd), 4),
        ]
    );
}

#[test]
fn auto_increment_snapshot_id() {
    let mut manager = new_manager();

    for snapshot_id in 0..100 {
        assert_eq!(manager.active_slot().snapshot_id(), snapshot_id);
        assert_eq!(manager.dirty_slot().snapshot_id(), snapshot_id + 1);
        manager.commit();
    }
}

fn push(
    manager: &mut MetadataManager,
    expected: &mut HashSet<OrphanPage>,
    next_page_id: &mut PageId,
) {
    let orphan = OrphanPage::new(*next_page_id, 1);
    expected.insert(orphan);
    manager.orphan_pages().push(orphan).expect("push failed");
    *next_page_id = next_page_id.inc().expect("page id overflow");
}

fn pop(manager: &mut MetadataManager, expected: &mut HashSet<OrphanPage>) {
    match manager.orphan_pages().pop(1) {
        None => assert!(
            expected.is_empty(),
            "metadata manager did not return an orphan page even though {} are available",
            expected.len()
        ),
        Some(orphan) => assert!(
            expected.remove(&orphan),
            "metadata manager returned an orphan page ({orphan:?}) that is not available"
        ),
    }
}

fn random_push_pop_cycle(
    manager: &mut MetadataManager,
    expected: &mut HashSet<OrphanPage>,
    next_page_id: &mut PageId,
) {
    let iterations = 100_000;

    for _ in 0..iterations {
        let push_or_pop = rand::random::<bool>();
        match push_or_pop {
            true => push(manager, expected, next_page_id),
            false => pop(manager, expected),
        }

        manager
            .active_slot()
            .verify_integrity()
            .expect("active slot was modified during push/pop operations");
    }
}

fn check_orphans(manager: &mut MetadataManager, expected: &HashSet<OrphanPage>) {
    // Use a `Vec`, not a `HashSet`, to check if `orphan_pages()` contains any duplicates
    let mut actual = manager.orphan_pages().iter();
    let mut expected = expected.iter().copied().collect::<Vec<_>>();
    actual.sort_by_key(OrphanPage::page_id);
    expected.sort_by_key(OrphanPage::page_id);
    assert_eq!(expected, actual);
}

fn check_orphans_from_file(f: &[u8], expected: &HashSet<OrphanPage>) {
    let mut manager = MetadataManager::from_file(f).expect("failed to initialize metadata manager");
    check_orphans(&mut manager, expected);
}

#[test]
fn random_push_pop() {
    let mut manager = new_manager();

    let mut expected = HashSet::new();
    let mut next_page_id = page_id(1);

    for snapshot_id in 1..=50 {
        random_push_pop_cycle(&mut manager, &mut expected, &mut next_page_id);

        manager.commit();
        assert_eq!(manager.active_slot().snapshot_id(), snapshot_id);

        manager
            .active_slot()
            .verify_integrity()
            .expect("active slot should be consistent after a commit");
    }
}

#[test]
fn push_pop() {
    let mut manager = new_manager();

    // Add 4 pages with increasing snapshots; the orphan page list will look like this:
    // [1, 2, 3, 4]
    manager.orphan_pages().push(OrphanPage::new(page_id(1), 1)).expect("push failed");
    manager.orphan_pages().push(OrphanPage::new(page_id(2), 2)).expect("push failed");
    manager.orphan_pages().push(OrphanPage::new(page_id(3), 3)).expect("push failed");
    manager.orphan_pages().push(OrphanPage::new(page_id(4), 4)).expect("push failed");
    manager.commit();

    // Pop 3 pages; orphan page list: [(claimed), (claimed), (claimed), 4]
    manager.orphan_pages().pop(3).expect("pop failed");
    manager.orphan_pages().pop(3).expect("pop failed");
    manager.orphan_pages().pop(3).expect("pop failed");
    manager.commit();

    // Push 2 new pages, again with increasing snapshots; the orphans are moved to the start of the
    // list: [4, 5, 6]
    manager.orphan_pages().push(OrphanPage::new(page_id(5), 5)).expect("push failed");
    manager.orphan_pages().push(OrphanPage::new(page_id(6), 6)).expect("push failed");
    manager.commit();

    // Pop 2 pages; orphan page list: [(claimed), (claimed), 6]
    manager.orphan_pages().pop(5).expect("pop failed");
    manager.orphan_pages().pop(5).expect("pop failed");
    manager.commit();

    assert_eq!(
        manager.orphan_pages().iter().into_iter().map(|orphan| orphan.page_id).collect::<Vec<_>>(),
        [6]
    );
}

#[test]
fn crash_recovery() {
    let mut manager = new_manager();

    let mut expected = HashSet::new();
    let mut next_page_id = page_id(1);

    for snapshot_id in 1..=50 {
        let expected_at_previous_snapshot = expected.clone();

        random_push_pop_cycle(&mut manager, &mut expected, &mut next_page_id);

        let dup = manager.to_bytes();
        check_orphans_from_file(&dup, &expected_at_previous_snapshot);

        manager.commit();
        assert_eq!(manager.active_slot().snapshot_id(), snapshot_id);
    }
}
