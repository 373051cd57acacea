//! Errors of the transactions.
use vstd::prelude::*;

verus! {

/// The transaction could not do what it was asked for.
#[derive(Copy, Clone, PartialEq, Eq, Debug)]
pub struct TransactionError;

} // verus!
