//! Ownership-polymorphic references: wrappers that hold a value (or a run of
//! values) either through a raw address, through a borrow, or by owning it,
//! behind one interface whose wire form is always the owned contents.

pub mod marker;
pub mod nyx;
pub mod truncate;
pub mod ptr;
pub mod single;
pub mod slice;

pub use marker::{Provenance, UnsafeMarker};
pub use nyx::{process_role, ProcessRole};
pub use ptr::{OwnedMutPtr, OwnedPtr};
pub use single::{OwnedRef, OwnedRefMut};
pub use slice::{OwnedMutSlice, OwnedMutSliceInner, OwnedSlice};
