//! Metadata of a paged trie database, and the transactions that run on it.

pub mod bytes;
pub mod meta;
pub mod page;
pub mod snapshot;
pub mod transaction;
