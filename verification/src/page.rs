//! Page identifiers.
use vstd::prelude::*;

verus! {

/// The stored form of a page identifier. Zero stands for "no page".
pub type RawPageId = u32;

/// Identifies a page of the data file. Never zero.
#[derive(Copy, Clone, PartialEq, Eq, PartialOrd, Ord, Hash, Debug)]
pub struct PageId {
    raw: RawPageId,
}

impl View for PageId {
    type V = RawPageId;

    closed spec fn view(&self) -> RawPageId {
        self.raw
    }
}

impl PageId {
    #[verifier::type_invariant]
    spec fn nonzero(self) -> bool {
        self.raw != 0
    }

    /// Returns the identifier stored as `raw`, or `None` for zero.
    #[must_use]
    pub fn new(raw: RawPageId) -> (id: Option<PageId>)
        ensures
            id is Some <==> raw != 0,
            id matches Some(id) ==> id@ == raw,
    {
        if raw == 0 {
            None
        } else {
            Some(PageId { raw })
        }
    }

    /// Returns the stored form of this identifier.
    #[must_use]
    pub fn raw(self) -> (raw: RawPageId)
        ensures
            raw == self@,
            raw != 0,
    {
        proof {
            use_type_invariant(&self);
        }
        self.raw
    }

    /// Returns the next identifier, or `None` if this is the last one.
    #[must_use]
    pub fn inc(self) -> (next: Option<PageId>)
        ensures
            next is Some <==> self@ < RawPageId::MAX,
            next matches Some(next) ==> next@ == self@ + 1,
    {
        match self.raw.checked_add(1) {
            Some(raw) => PageId::new(raw),
            None => None,
        }
    }
}

} // verus!
