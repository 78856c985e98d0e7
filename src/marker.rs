use vstd::prelude::*;

verus! {

/// Private part of the marker, so that it cannot be built outside this crate.
#[derive(Debug, Clone, Copy, PartialEq, Eq, PartialOrd, Ord)]
struct UnsafeMarkerInner;

/// A witness carried by every raw-address variant of the wrappers in this
/// crate. It has no public constructor: the only way to obtain one is through
/// a constructor that takes a raw address, which makes such provenance
/// visible and auditable.
#[derive(Debug, Clone, Copy, PartialEq, Eq, PartialOrd, Ord)]
pub struct UnsafeMarker(UnsafeMarkerInner);

impl UnsafeMarker {
    /// A new marker. Only the raw-address constructors of this crate call it.
    pub(crate) fn new() -> (r: Self) {
        UnsafeMarker(UnsafeMarkerInner)
    }
}

/// Which of the three states a wrapper currently holds.
#[derive(Debug, Clone, Copy, PartialEq, Eq)]
pub enum Provenance {
    /// A raw address into memory that somebody else owns.
    RawPointer,
    /// A borrow of memory that somebody else owns.
    Borrowed,
    /// Storage that the wrapper owns itself.
    Owned,
}

} // verus!
