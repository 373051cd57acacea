//! Kinds of transactions.
use vstd::prelude::*;
use crate::transaction::sealed::Sealed;

verus! {

/// Whether a transaction can change the database.
pub trait TransactionKind: Sealed + core::fmt::Debug {

}

/// A transaction that reads and writes.
#[derive(Debug)]
pub struct RW {}

impl Sealed for RW {

}

impl TransactionKind for RW {

}

/// A transaction that only reads.
#[derive(Debug)]
pub struct RO {}

impl Sealed for RO {

}

impl TransactionKind for RO {

}

} // verus!
