//! Orphan pages.
use vstd::prelude::*;
use crate::page::{PageId, RawPageId};
use crate::snapshot::SnapshotId;

verus! {

/// Details about an orphan page.
#[derive(Copy, Clone, PartialEq, Eq, Structural, Hash, Debug)]
pub struct OrphanPage {
    pub page_id: RawPageId,
    pub padding: u32,
    pub orphaned_at: SnapshotId,
}

impl OrphanPage {
    #[must_use]
    pub fn new(page_id: PageId, orphaned_at: SnapshotId) -> (orphan: Self)
        ensures
            orphan == (OrphanPage { page_id: page_id@, padding: 0, orphaned_at }),
            orphan.page_id != 0,
    {
        OrphanPage { page_id: page_id.raw(), padding: 0, orphaned_at }
    }

    /// ID of the orphan page.
    #[must_use]
    pub fn page_id(&self) -> (id: PageId)
        requires
            self.page_id != 0,
        ensures
            id@ == self.page_id,
    {
        PageId::new(self.page_id).unwrap()
    }

    /// The snapshot at which it was made orphan. Note that this snapshot won't be the same as the
    /// snapshot at which the page was created. This snapshot can be used to understand if there's
    /// any transaction in the system which may still be reading this page.
    #[must_use]
    pub fn orphaned_at(&self) -> (snapshot: SnapshotId)
        ensures
            snapshot == self.orphaned_at,
    {
        self.orphaned_at
    }
}

} // verus!
