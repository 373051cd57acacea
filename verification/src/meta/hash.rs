//! The hash that protects a metadata slot.
use vstd::prelude::*;

verus! {

/// The hash of a byte string, as `fxhash::hash64` computes it.
///
/// The function reads the bytes as whole words in the byte order of the machine. That order belongs
/// to the target that the library is compiled for, so the hash is the same in every process and on
/// every machine that can run the compiled library.
pub uninterp spec fn fx_hash64(bytes: Seq<u8>) -> u64;

/// Calls `fxhash::hash64` on a byte slice. The function starts from a fixed state, holds no seed
/// and reads nothing but the slice, so its result is a function of the bytes. Nothing else is
/// claimed of it: in particular, different byte strings can have the same hash.
#[verifier::external_body]
pub(crate) fn hash64(bytes: &[u8]) -> (hash: u64)
    ensures
        hash == fx_hash64(bytes@),
{
    fxhash::hash64(bytes)
}

} // verus!
