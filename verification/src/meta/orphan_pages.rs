//! Access to the orphan page list.
use vstd::prelude::*;
use crate::meta::error::CapacityOverflowError;
use crate::meta::manager::MetadataManager;
use crate::meta::model::MetadataState;
use crate::meta::orphan::OrphanPage;
use crate::snapshot::SnapshotId;

verus! {

impl MetadataManager {
    /// Returns a mutable object that can be used to inspect and modify the orphan page list.
    pub fn orphan_pages(&mut self) -> (pages: OrphanPages<'_>)
        ensures
            *pages.manager == *old(self),
            *final(self) == *final(pages.manager),
    {
        OrphanPages::new(self)
    }
}

/// The orphan page list of a metadata manager.
#[must_use]
#[derive(Debug)]
pub struct OrphanPages<'a> {
    pub manager: &'a mut MetadataManager,
}

impl<'a> View for OrphanPages<'a> {
    type V = MetadataState;

    /// The metadata that the list belongs to.
    open spec fn view(&self) -> MetadataState {
        self.manager@
    }
}

impl<'a> OrphanPages<'a> {
    fn new(manager: &'a mut MetadataManager) -> (pages: Self)
        ensures
            *pages.manager == *old(manager),
            *final(manager) == *final(pages.manager),
    {
        OrphanPages { manager }
    }

    /// Number of orphan pages in this list.
    pub fn len(&self) -> (len: usize)
        requires
            self@.dirty_slot().meta.ordered(),
        ensures
            len == self@.dirty_slot().meta.orphans_count(),
    {
        let m = self.manager.dirty_slot();
        m.meta.orphan_pages_len as usize - m.meta.reclaimed_orphans_len as usize
    }

    /// Maximum number of orphan pages that this list can contain without resizing.
    pub fn capacity(&self) -> (capacity: usize)
        ensures
            capacity == self@.list.len(),
    {
        self.manager.raw_orphan_pages().len()
    }

    /// Returns `true` if there are no orphan pages.
    pub fn is_empty(&self) -> (empty: bool)
        requires
            self@.dirty_slot().meta.ordered(),
        ensures
            empty == (self@.dirty_slot().meta.orphans_count() == 0),
    {
        self.len() == 0
    }

    /// Returns `true` if the list must be resized before another orphan page can be added.
    pub fn is_full(&self) -> (full: bool)
        ensures
            full == self@.is_full(),
    {
        self.manager.dirty_slot().meta.orphan_pages_len as usize >= self.capacity()
    }

    /// Returns the orphan pages, oldest first.
    pub fn iter(&self) -> (orphans: Vec<OrphanPage>)
        requires
            self@.in_bounds(),
        ensures
            orphans@ == self@.orphans(),
    {
        let list = self.manager.raw_orphan_pages();
        let range = self.manager.dirty_slot().meta.actual_orphans_range();
        let mut orphans: Vec<OrphanPage> = Vec::with_capacity(range.end - range.start);
        let mut i: usize = range.start;
        while i < range.end
            invariant
                range.start <= i <= range.end <= list@.len(),
                orphans@ == list@.subrange(range.start as int, i as int),
            decreases range.end - i,
        {
            orphans.push(list[i]);
            i = i + 1;
            assert(orphans@ =~= list@.subrange(range.start as int, i as int));
        }
        orphans
    }

    /// Tells whether the orphan page can be added: it can be counted, it finds room once the list
    /// has been resized, and it is not older than the last page of the list.
    pub fn can_push(&self, orphan: &OrphanPage) -> (possible: bool)
        requires
            self@.wf(),
        ensures
            possible == {
                &&& self@.dirty_slot().meta.ordered()
                &&& self@.dirty_slot().meta.orphan_pages_len < u32::MAX
                &&& self@.dirty_slot().meta.orphan_pages_len < self@.grow().list.len()
                &&& self@.in_order(*orphan)
                &&& self@.is_full() && self@.grow().wf() ==> self@.grow().in_order(*orphan)
            },
    {
        let m = self.manager.dirty_slot();
        let len: u64 = m.meta.orphan_pages_len as u64;
        let capacity: u64 = self.capacity() as u64;
        if !m.meta.is_ordered() || m.meta.orphan_pages_len == u32::MAX || (len >= capacity && len
            - capacity >= capacity + 8) {
            return false;
        }
        if len == 0 || len > capacity || (len == capacity && self.manager.grown_len().is_none()) {
            // The list has no last page, or one from unused space, or cannot be resized
            return true;
        }
        self.manager.raw_orphan_pages()[m.meta.orphan_pages_len as usize - 1].orphaned_at
            <= orphan.orphaned_at
    }

    /// Adds a page to the orphan page list, increasing the capacity of the list if necessary.
    ///
    /// The pages must be added in the order in which they were orphaned.
    pub fn push(&mut self, orphan: OrphanPage) -> (result: Result<(), CapacityOverflowError>)
        requires
            old(self)@.wf(),
            old(self)@.dirty_slot().meta.ordered(),
            old(self)@.dirty_slot().meta.orphan_pages_len < u32::MAX,
            old(self)@.dirty_slot().meta.orphan_pages_len < old(self)@.grow().list.len(),
            old(self)@.in_order(orphan),
            old(self)@.is_full() && old(self)@.grow().wf() ==> old(self)@.grow().in_order(orphan),
        ensures
            match result {
                Ok(()) => final(self)@ == if old(self)@.is_full() {
                    old(self)@.grow().push(orphan)
                } else {
                    old(self)@.push(orphan)
                },
                Err(_) => {
                    &&& final(self)@ == old(self)@
                    &&& old(self)@.is_full()
                    &&& 2 * (128 + 16 * old(self)@.list.len()) > usize::MAX
                },
            },
            final(self)@.wf(),
            *final(final(self).manager) == *final(old(self).manager),
    {
        if self.push_within_capacity(orphan).is_err() {
            match self.manager.grow() {
                Ok(()) => (),
                Err(error) => return Err(error),
            }
            let _ = self.push_within_capacity(orphan);
        }
        Ok(())
    }

    /// Adds a page to the orphan page list if there is enough capacity.
    ///
    /// The snapshot IDs of the pages must be non-decreasing. This is because `pop()` makes this
    /// assumption, and if this assumption is broken, then the orphan page list may grow
    /// indefinitely.
    pub fn push_within_capacity(&mut self, orphan: OrphanPage) -> (result: Result<(), OrphanPage>)
        requires
            old(self)@.dirty_slot().meta.ordered(),
            old(self)@.is_full() || old(self)@.dirty_slot().meta.orphan_pages_len
                < u32::MAX,
            old(self)@.in_order(orphan),
        ensures
            match result {
                Ok(()) => {
                    &&& !old(self)@.is_full()
                    &&& final(self)@ == old(self)@.push(orphan)
                },
                Err(rejected) => {
                    &&& old(self)@.is_full()
                    &&& rejected == orphan
                    &&& final(self)@ == old(self)@
                },
            },
            *final(final(self).manager) == *final(old(self).manager),
    {
        let (_, dirty, list) = self.manager.parts_mut();

        let range = dirty.meta.actual_orphans_range();
        if range.end < list.len() {
            list[range.end] = orphan;
            dirty.meta.orphan_pages_len = dirty.meta.orphan_pages_len + 1;
            return Ok(());
        }

        // Not enough room to add this orphan.
        Err(orphan)
    }

    /// Reclaims a page from the orphan page list.
    ///
    /// The returned page (if any) is guaranteed to have been orphaned at `snapshot_threshold` or
    /// earlier.
    ///
    /// This method uses an optimized algorithm that may return `None` even if an orphan page
    /// exists.
    pub fn pop(&mut self, snapshot_threshold: SnapshotId) -> (reclaimed: Option<OrphanPage>)
        requires
            old(self)@.dirty_slot().meta.ordered(),
            old(self)@.dirty_slot().meta.orphans_count() > 0 ==> old(self)@.dirty_slot().meta.reclaimed_orphans_len < old(self)@.list.len(),
        ensures
            match reclaimed {
                Some(orphan) => {
                    &&& old(self)@.can_pop(snapshot_threshold)
                    &&& orphan == old(self)@.first_orphan()
                    &&& orphan.orphaned_at <= snapshot_threshold
                    &&& final(self)@ == old(self)@.pop()
                },
                None => {
                    &&& !old(self)@.can_pop(snapshot_threshold)
                    &&& final(self)@ == old(self)@
                },
            },
            *final(final(self).manager) == *final(old(self).manager),
    {
        let (_, dirty, list) = self.manager.parts_mut();
        let range = dirty.meta.actual_orphans_range();

        if range.start < range.end {
            let orphan = list[range.start];
            if orphan.orphaned_at() <= snapshot_threshold {
                dirty.meta.reclaimed_orphans_len = dirty.meta.reclaimed_orphans_len + 1;
                return Some(orphan);
            }
        }
        None
    }
}

} // verus!
