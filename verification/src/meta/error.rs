//! Errors of the metadata operations.
use vstd::prelude::*;

verus! {

/// The metadata is not consistent.
#[derive(Copy, Clone, PartialEq, Eq, Debug)]
pub struct CorruptedMetadataError;

/// The orphan page list cannot grow any further: its image would not fit in memory.
#[derive(Copy, Clone, PartialEq, Eq, Debug)]
pub struct CapacityOverflowError;

} // verus!
