//! Snapshot identifiers.
use vstd::prelude::*;

verus! {

/// Identifies one committed state of the database. Later snapshots have higher identifiers.
pub type SnapshotId = u64;

} // verus!
