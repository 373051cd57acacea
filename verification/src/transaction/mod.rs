//! Transactions.
pub mod direct;
pub mod error;
pub mod kind;
pub mod laws;
pub mod pending;
mod sealed;
pub mod step;
pub mod upgradable;
pub mod value;

pub use direct::Transaction;
pub use error::TransactionError;
pub use kind::{TransactionKind, RO, RW};
pub use upgradable::UpgradableTransaction;
