//! Database metadata manipulation operations.
//!
//! The database metadata consists of the following elements:
//!
//! * latest snapshot that was committed to the database
//! * ID of the page of the root node, and hash of the root node
//! * number of pages in the database
//! * list of orphaned pages in the database
//!
//! # Crash recovery
//!
//! The metadata is stored in a file and aims to be crash-recoverable, meaning that if a crash
//! occurs before or during a commit, the file should contain information to restore the database
//! to its previous valid state.
//!
//! There are two strategies, one for the "fixed" metadata (snapshot ID, root node information,
//! number of pages), one for the "variable" metadata (the list of orphaned pages). Both rely on
//! the assumption that partial writes do not affect the existing data in a file.
//!
//! * There are two copies of the fixed metadata, which are written in an alternating fashion: one
//!   commit will change the first copy, the next commit will change the second copy, and so on.
//!
//! * The fixed metadata is hashed so that it's possible to tell whether one of the copies was
//!   corrupted by a crash.
//!
//! * The list of orphaned pages is append-only in between commits. Pages that are reclaimed are not
//!   wiped from the list, but kept and just marked as claimed. This way, if a crash occurs, the
//!   previous fixed metadata will still report them as orphans. To prevent the list from growing
//!   too big, a commit overwrites the claimed section with the actual orphans, as soon as the part
//!   that was claimed before the last commit has room for them.
//!
//! [`model`] says what the metadata is and how it changes, [`effects`] what that means for every field,
//! and [`laws`] what follows across operations, commits and crashes.
pub mod codec;
pub mod effects;
pub mod error;
pub mod hash;
pub mod laws;
pub mod manager;
pub mod model;
pub mod orphan;
pub mod orphan_pages;
pub mod slot;

pub use error::{CapacityOverflowError, CorruptedMetadataError};
pub use manager::MetadataManager;
pub use orphan::OrphanPage;
pub use orphan_pages::OrphanPages;
pub use slot::{HashedMetadataSlot, MetadataSlot, MetadataSlots, SlotIndex};
