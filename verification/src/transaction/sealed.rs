//! Keeps other crates from adding kinds of transactions.
use vstd::prelude::*;

verus! {

pub trait Sealed {

}

} // verus!
