use vstd::prelude::*;
use vstd::pervasive::cloned;
use vstd::std_specs::slice::into_iter_elts;
use crate::marker::{Provenance, UnsafeMarker};
use crate::truncate::{truncate_mut, truncate_ref};

verus! {

/// Declares std's mutable slice iterator, which the wrappers hand out.
#[verifier::external_type_specification]
#[verifier::external_body]
#[verifier::reject_recursive_types(X)]
pub struct ExIterMut<'a, X: 'a>(std::slice::IterMut<'a, X>);

/// Relies on `<[T]>::iter_mut`: the iterator borrows the slice, whose length
/// cannot change through it.
#[verifier::external_body]
fn slice_iter_mut<'b, T>(items: &'b mut [T]) -> (it: std::slice::IterMut<'b, T>)
    ensures
        final(items)@.len() == old(items)@.len(),
{
    items.iter_mut()
}

/// Copies the elements of `s`, one clone each, into a new vector.
fn clone_all<T: Clone>(s: &[T]) -> (v: Vec<T>)
    ensures
        v@.len() == s@.len(),
        forall|i: int| 0 <= i < s@.len() ==> cloned(#[trigger] s@[i], v@[i]),
{
    let mut v: Vec<T> = Vec::new();
    let mut i: usize = 0;
    while i < s.len()
        invariant
            i <= s@.len(),
            v@.len() == i,
            forall|j: int| 0 <= j < i ==> cloned(#[trigger] s@[j], v@[j]),
        decreases s@.len() - i,
    {
        v.push(s[i].clone());
        i = i + 1;
    }
    v
}

/// The three states of an [`OwnedSlice`].
enum OwnedSliceInner<'a, T> {
    /// A raw address and the memory it designates, as many elements as the
    /// logical length.
    RefRaw(usize, &'a [T], UnsafeMarker),
    /// A borrowed slice.
    Ref(&'a [T]),
    /// An owned vector.
    Owned(Vec<T>),
}

/// A run of values held through a raw address, a borrowed slice or an owned
/// vector. Its wire form is always the logical contents, and what is decoded
/// is always owned.
pub struct OwnedSlice<'a, T> {
    inner: OwnedSliceInner<'a, T>,
}

impl<'a, T> View for OwnedSlice<'a, T> {
    type V = Seq<T>;

    /// The logical contents.
    closed spec fn view(&self) -> Seq<T> {
        match self.inner {
            OwnedSliceInner::RefRaw(_, mem, _) => mem@,
            OwnedSliceInner::Ref(r) => r@,
            OwnedSliceInner::Owned(v) => v@,
        }
    }
}

impl<'a, T> OwnedSlice<'a, T> {
    /// Which state the slice holds.
    pub closed spec fn provenance(&self) -> Provenance {
        match self.inner {
            OwnedSliceInner::RefRaw(..) => Provenance::RawPointer,
            OwnedSliceInner::Ref(_) => Provenance::Borrowed,
            OwnedSliceInner::Owned(_) => Provenance::Owned,
        }
    }

    /// The raw address held, or 0 in the other states.
    pub closed spec fn raw_addr(&self) -> usize {
        match self.inner {
            OwnedSliceInner::RefRaw(addr, _, _) => addr,
            _ => 0,
        }
    }

    /// Wraps the raw address `addr` of `mem`, with the length of `mem`. The
    /// caller keeps the memory valid for as long as the wrapper is used. A
    /// null address is a caller error.
    pub fn from_raw_parts(addr: usize, mem: &'a [T]) -> (r: Self)
        requires
            addr != 0,
        ensures
            r.provenance() == Provenance::RawPointer,
            r.raw_addr() == addr,
            r@ == mem@,
    {
        OwnedSlice { inner: OwnedSliceInner::RefRaw(addr, mem, UnsafeMarker::new()) }
    }

    /// Borrows `r`.
    pub fn from_slice(r: &'a [T]) -> (s: Self)
        ensures
            s.provenance() == Provenance::Borrowed,
            s@ == r@,
    {
        OwnedSlice { inner: OwnedSliceInner::Ref(r) }
    }

    /// Takes ownership of `v`.
    pub fn from_vec(v: Vec<T>) -> (s: Self)
        ensures
            s.provenance() == Provenance::Owned,
            s@ == v@,
    {
        OwnedSlice { inner: OwnedSliceInner::Owned(v) }
    }

    /// Shrinks the logical length to `new_len`, keeping the state. Returns the
    /// previous length, or `None`, changing nothing, where `new_len` exceeds
    /// it.
    pub fn truncate(&mut self, new_len: usize) -> (r: Option<usize>)
        ensures
            new_len <= old(self)@.len() ==> r == Some(old(self)@.len() as usize)
                && final(self)@ == old(self)@.take(new_len as int),
            new_len > old(self)@.len() ==> r is None && final(self)@ == old(self)@,
            final(self).provenance() == old(self).provenance(),
            final(self).raw_addr() == old(self).raw_addr(),
    {
        let mut inner = OwnedSliceInner::Owned(Vec::new());
        core::mem::swap(&mut self.inner, &mut inner);
        let (inner, r) = match inner {
            OwnedSliceInner::RefRaw(addr, mem, marker) => {
                let len = mem.len();
                if new_len <= len {
                    (OwnedSliceInner::RefRaw(addr, truncate_ref(mem, new_len), marker), Some(len))
                } else {
                    (OwnedSliceInner::RefRaw(addr, mem, marker), None)
                }
            },
            OwnedSliceInner::Ref(s) => {
                let len = s.len();
                if new_len <= len {
                    (OwnedSliceInner::Ref(truncate_ref(s, new_len)), Some(len))
                } else {
                    (OwnedSliceInner::Ref(s), None)
                }
            },
            OwnedSliceInner::Owned(mut v) => {
                let len = v.len();
                if new_len <= len {
                    v.truncate(new_len);
                    (OwnedSliceInner::Owned(v), Some(len))
                } else {
                    (OwnedSliceInner::Owned(v), None)
                }
            },
        };
        self.inner = inner;
        r
    }

    /// The logical contents, whatever the state.
    pub fn as_slice(&self) -> (r: &[T])
        ensures
            r@ == self@,
    {
        match &self.inner {
            OwnedSliceInner::RefRaw(_, mem, _) => mem,
            OwnedSliceInner::Ref(r) => r,
            OwnedSliceInner::Owned(v) => v.as_slice(),
        }
    }

    /// The number of elements in the logical contents.
    pub fn len(&self) -> (r: usize)
        ensures
            r == self@.len(),
    {
        self.as_slice().len()
    }

    /// An iterator over the logical contents.
    pub fn iter(&self) -> (r: core::slice::Iter<'_, T>)
        ensures
            into_iter_elts(r) == self@,
    {
        self.as_slice().iter()
    }

    /// A borrowed view of the elements from `range.start` up to `range.end`,
    /// whatever the state of `self`.
    pub fn slice(&'a self, range: core::ops::Range<usize>) -> (r: OwnedSlice<'a, T>)
        requires
            range.start <= range.end <= self@.len(),
        ensures
            r.provenance() == Provenance::Borrowed,
            r@ == self@.subrange(range.start as int, range.end as int),
    {
        let s = self.as_slice();
        OwnedSlice { inner: OwnedSliceInner::Ref(vstd::slice::slice_subrange(s, range.start, range.end)) }
    }

    /// True where the slice owns its storage.
    pub fn is_owned(&self) -> (r: bool)
        ensures
            r == (self.provenance() == Provenance::Owned),
    {
        match self.inner {
            OwnedSliceInner::RefRaw(..) | OwnedSliceInner::Ref(_) => false,
            OwnedSliceInner::Owned(_) => true,
        }
    }

    /// What the wire form holds: the logical contents.
    pub open spec fn encoding(&self) -> Seq<T> {
        self@
    }

    /// `self` is what decoding `wire` gives.
    pub open spec fn is_decoding_of(&self, wire: Seq<T>) -> bool {
        self.provenance() == Provenance::Owned && self@ == wire
    }

    /// The contents to encode, the same in every state.
    pub fn encode(&self) -> (r: &[T])
        ensures
            r@ == self.encoding(),
    {
        self.as_slice()
    }

    /// Rebuilds a slice from decoded contents: always owned.
    pub fn decode(wire: Vec<T>) -> (r: Self)
        ensures
            r.is_decoding_of(wire@),
    {
        OwnedSlice { inner: OwnedSliceInner::Owned(wire) }
    }
}

impl<'a, T: Clone> OwnedSlice<'a, T> {
    /// `r` is what [`OwnedSlice::into_owned`] makes of `self`: owned, with a
    /// clone of each element, or `self` itself where it is owned already.
    pub open spec fn owned_copy(&self, r: &Self) -> bool {
        &&& r.provenance() == Provenance::Owned
        &&& r@.len() == self@.len()
        &&& forall|i: int| 0 <= i < self@.len() ==> cloned(#[trigger] self@[i], r@[i])
        &&& self.provenance() == Provenance::Owned ==> *r == *self
    }

    /// Copies the logical contents into a vector of its own, unless the slice
    /// owns its storage already.
    pub fn into_owned(self) -> (r: Self)
        ensures
            self.owned_copy(&r),
    {
        match self.inner {
            OwnedSliceInner::RefRaw(_, mem, _) => OwnedSlice { inner: OwnedSliceInner::Owned(clone_all(mem)) },
            OwnedSliceInner::Ref(r) => OwnedSlice { inner: OwnedSliceInner::Owned(clone_all(r)) },
            OwnedSliceInner::Owned(v) => OwnedSlice { inner: OwnedSliceInner::Owned(v) },
        }
    }

    /// The logical contents as a vector: the owned one, or a clone of each
    /// element.
    pub fn into_vec(self) -> (r: Vec<T>)
        ensures
            r@.len() == self@.len(),
            forall|i: int| 0 <= i < self@.len() ==> cloned(#[trigger] self@[i], r@[i]),
            self.provenance() == Provenance::Owned ==> r@ == self@,
    {
        match self.inner {
            OwnedSliceInner::RefRaw(_, mem, _) => clone_all(mem),
            OwnedSliceInner::Ref(r) => clone_all(r),
            OwnedSliceInner::Owned(v) => v,
        }
    }
}


impl<'a, T: Clone> Clone for OwnedSlice<'a, T> {
    /// An owned copy of the logical contents, whatever the state.
    fn clone(&self) -> (r: Self)
        ensures
            r.provenance() == Provenance::Owned,
            r@.len() == self@.len(),
            forall|i: int| 0 <= i < self@.len() ==> cloned(#[trigger] self@[i], r@[i]),
    {
        OwnedSlice { inner: OwnedSliceInner::Owned(clone_all(self.as_slice())) }
    }
}

/// The three states of an [`OwnedMutSlice`].
pub enum OwnedMutSliceInner<'a, T> {
    /// A raw address and the memory it designates, as many elements as the
    /// logical length.
    RefRaw(usize, &'a mut [T], UnsafeMarker),
    /// An exclusively borrowed slice.
    Ref(&'a mut [T]),
    /// An owned vector.
    Owned(Vec<T>),
}

/// A run of values held through a raw address, an exclusive borrow or an
/// owned vector, readable and writable in each state.
pub struct OwnedMutSlice<'a, T> {
    inner: OwnedMutSliceInner<'a, T>,
}

impl<'a, T> View for OwnedMutSlice<'a, T> {
    type V = Seq<T>;

    /// The logical contents.
    closed spec fn view(&self) -> Seq<T> {
        match self.inner {
            OwnedMutSliceInner::RefRaw(_, mem, _) => mem@,
            OwnedMutSliceInner::Ref(r) => r@,
            OwnedMutSliceInner::Owned(v) => v@,
        }
    }
}

impl<'a, T> OwnedMutSlice<'a, T> {
    /// Which state the slice holds.
    pub closed spec fn provenance(&self) -> Provenance {
        match self.inner {
            OwnedMutSliceInner::RefRaw(..) => Provenance::RawPointer,
            OwnedMutSliceInner::Ref(_) => Provenance::Borrowed,
            OwnedMutSliceInner::Owned(_) => Provenance::Owned,
        }
    }

    /// The raw address held, or 0 in the other states.
    pub closed spec fn raw_addr(&self) -> usize {
        match self.inner {
            OwnedMutSliceInner::RefRaw(addr, _, _) => addr,
            _ => 0,
        }
    }

    /// Wraps the raw address `addr` of `mem`, with the length of `mem`. A null
    /// address or an empty `mem` gives an empty owned slice instead, so that
    /// a buffer that is not there yet needs no special case at the call site.
    pub fn from_raw_parts_mut(addr: usize, mem: &'a mut [T]) -> (r: Self)
        ensures
            addr == 0 || old(mem)@.len() == 0 ==> r.provenance() == Provenance::Owned
                && r@ == Seq::<T>::empty(),
            addr != 0 && old(mem)@.len() != 0 ==> r.provenance() == Provenance::RawPointer
                && r.raw_addr() == addr && r@ == old(mem)@,
    {
        if addr == 0 || mem.len() == 0 {
            OwnedMutSlice { inner: OwnedMutSliceInner::Owned(Vec::new()) }
        } else {
            OwnedMutSlice { inner: OwnedMutSliceInner::RefRaw(addr, mem, UnsafeMarker::new()) }
        }
    }

    /// Borrows `r` exclusively.
    pub fn from_mut_slice(r: &'a mut [T]) -> (s: Self)
        ensures
            s.provenance() == Provenance::Borrowed,
            s@ == old(r)@,
    {
        OwnedMutSlice { inner: OwnedMutSliceInner::Ref(r) }
    }

    /// Takes ownership of `v`.
    pub fn from_vec(v: Vec<T>) -> (s: Self)
        ensures
            s.provenance() == Provenance::Owned,
            s@ == v@,
    {
        OwnedMutSlice { inner: OwnedMutSliceInner::Owned(v) }
    }

    /// Shrinks the logical length to `new_len`, keeping the state. Returns the
    /// previous length, or `None`, changing nothing, where `new_len` exceeds
    /// it.
    pub fn truncate(&mut self, new_len: usize) -> (r: Option<usize>)
        ensures
            new_len <= old(self)@.len() ==> r == Some(old(self)@.len() as usize)
                && final(self)@ == old(self)@.take(new_len as int),
            new_len > old(self)@.len() ==> r is None && final(self)@ == old(self)@,
            final(self).provenance() == old(self).provenance(),
            final(self).raw_addr() == old(self).raw_addr(),
    {
        let mut inner = OwnedMutSliceInner::Owned(Vec::new());
        core::mem::swap(&mut self.inner, &mut inner);
        let (inner, r) = match inner {
            OwnedMutSliceInner::RefRaw(addr, mem, marker) => {
                let len = mem.len();
                if new_len <= len {
                    (OwnedMutSliceInner::RefRaw(addr, truncate_mut(mem, new_len), marker), Some(len))
                } else {
                    (OwnedMutSliceInner::RefRaw(addr, mem, marker), None)
                }
            },
            OwnedMutSliceInner::Ref(s) => {
                let len = s.len();
                if new_len <= len {
                    (OwnedMutSliceInner::Ref(truncate_mut(s, new_len)), Some(len))
                } else {
                    (OwnedMutSliceInner::Ref(s), None)
                }
            },
            OwnedMutSliceInner::Owned(mut v) => {
                let len = v.len();
                if new_len <= len {
                    v.truncate(new_len);
                    (OwnedMutSliceInner::Owned(v), Some(len))
                } else {
                    (OwnedMutSliceInner::Owned(v), None)
                }
            },
        };
        self.inner = inner;
        r
    }

    /// The logical contents, whatever the state.
    pub fn as_slice(&self) -> (r: &[T])
        ensures
            r@ == self@,
    {
        match &self.inner {
            OwnedMutSliceInner::RefRaw(_, mem, _) => mem,
            OwnedMutSliceInner::Ref(r) => r,
            OwnedMutSliceInner::Owned(v) => v.as_slice(),
        }
    }

    /// The logical contents, writable, whatever the state. What is written
    /// through the result is what the slice holds afterwards.
    pub fn as_mut_slice(&mut self) -> (r: &mut [T])
        ensures
            r@ == old(self)@,
            final(self)@ == final(r)@,
            final(self).provenance() == old(self).provenance(),
            final(self).raw_addr() == old(self).raw_addr(),
    {
        match &mut self.inner {
            OwnedMutSliceInner::RefRaw(_, mem, _) => mem,
            OwnedMutSliceInner::Ref(r) => r,
            OwnedMutSliceInner::Owned(v) => v.as_mut_slice(),
        }
    }

    /// The number of elements in the logical contents.
    pub fn len(&self) -> (r: usize)
        ensures
            r == self@.len(),
    {
        self.as_slice().len()
    }

    /// An iterator over the logical contents.
    pub fn iter(&self) -> (r: core::slice::Iter<'_, T>)
        ensures
            into_iter_elts(r) == self@,
    {
        self.as_slice().iter()
    }

    /// An iterator over the logical contents, handing out each element
    /// writable. The state, the address and the length stay as they are.
    pub fn iter_mut(&mut self) -> (r: core::slice::IterMut<'_, T>)
        ensures
            final(self).provenance() == old(self).provenance(),
            final(self).raw_addr() == old(self).raw_addr(),
            final(self)@.len() == old(self)@.len(),
    {
        slice_iter_mut(self.as_mut_slice())
    }

    /// True where the slice owns its storage.
    pub fn is_owned(&self) -> (r: bool)
        ensures
            r == (self.provenance() == Provenance::Owned),
    {
        match self.inner {
            OwnedMutSliceInner::RefRaw(..) | OwnedMutSliceInner::Ref(_) => false,
            OwnedMutSliceInner::Owned(_) => true,
        }
    }

    /// What the wire form holds: the logical contents.
    pub open spec fn encoding(&self) -> Seq<T> {
        self@
    }

    /// `self` is what decoding `wire` gives.
    pub open spec fn is_decoding_of(&self, wire: Seq<T>) -> bool {
        self.provenance() == Provenance::Owned && self@ == wire
    }

    /// The contents to encode, the same in every state.
    pub fn encode(&self) -> (r: &[T])
        ensures
            r@ == self.encoding(),
    {
        self.as_slice()
    }

    /// Rebuilds a slice from decoded contents: always owned.
    pub fn decode(wire: Vec<T>) -> (r: Self)
        ensures
            r.is_decoding_of(wire@),
    {
        OwnedMutSlice { inner: OwnedMutSliceInner::Owned(wire) }
    }

    /// Gives up write access: the same state, address and contents, shared,
    /// with nothing copied.
    pub fn downgrade(self) -> (r: OwnedSlice<'a, T>)
        ensures
            r.provenance() == self.provenance(),
            r.raw_addr() == self.raw_addr(),
            r@ == self@,
    {
        match self.inner {
            OwnedMutSliceInner::RefRaw(addr, mem, marker) => OwnedSlice { inner: OwnedSliceInner::RefRaw(addr, mem, marker) },
            OwnedMutSliceInner::Ref(r) => OwnedSlice { inner: OwnedSliceInner::Ref(r) },
            OwnedMutSliceInner::Owned(v) => OwnedSlice { inner: OwnedSliceInner::Owned(v) },
        }
    }
}

impl<'a, T: Clone> OwnedMutSlice<'a, T> {
    /// `r` is what [`OwnedMutSlice::into_owned`] makes of `self`: owned, with
    /// a clone of each element, or `self` itself where it is owned already.
    pub open spec fn owned_copy(&self, r: &Self) -> bool {
        &&& r.provenance() == Provenance::Owned
        &&& r@.len() == self@.len()
        &&& forall|i: int| 0 <= i < self@.len() ==> cloned(#[trigger] self@[i], r@[i])
        &&& self.provenance() == Provenance::Owned ==> *r == *self
    }

    /// Copies the logical contents into a vector of its own, unless the slice
    /// owns its storage already.
    pub fn into_owned(self) -> (r: Self)
        ensures
            self.owned_copy(&r),
    {
        match self.inner {
            OwnedMutSliceInner::RefRaw(_, mem, _) => OwnedMutSlice { inner: OwnedMutSliceInner::Owned(clone_all(mem)) },
            OwnedMutSliceInner::Ref(r) => OwnedMutSlice { inner: OwnedMutSliceInner::Owned(clone_all(r)) },
            OwnedMutSliceInner::Owned(v) => OwnedMutSlice { inner: OwnedMutSliceInner::Owned(v) },
        }
    }

    /// The logical contents as a vector: the owned one, or a clone of each
    /// element.
    pub fn into_vec(self) -> (r: Vec<T>)
        ensures
            r@.len() == self@.len(),
            forall|i: int| 0 <= i < self@.len() ==> cloned(#[trigger] self@[i], r@[i]),
            self.provenance() == Provenance::Owned ==> r@ == self@,
    {
        match self.inner {
            OwnedMutSliceInner::RefRaw(_, mem, _) => clone_all(mem),
            OwnedMutSliceInner::Ref(r) => clone_all(r),
            OwnedMutSliceInner::Owned(v) => v,
        }
    }
}

impl<'a, T: Clone> Clone for OwnedMutSlice<'a, T> {
    /// An owned copy of the logical contents, whatever the state.
    fn clone(&self) -> (r: Self)
        ensures
            r.provenance() == Provenance::Owned,
            r@.len() == self@.len(),
            forall|i: int| 0 <= i < self@.len() ==> cloned(#[trigger] self@[i], r@[i]),
    {
        OwnedMutSlice { inner: OwnedMutSliceInner::Owned(clone_all(self.as_slice())) }
    }
}

/// Takes ownership of a vector.
impl<'a, T> From<Vec<T>> for OwnedSlice<'a, T> {
    fn from(v: Vec<T>) -> (r: Self)
        ensures
            r.provenance() == Provenance::Owned,
            r@ == v@,
    {
        OwnedSlice::from_vec(v)
    }
}

impl<'a, T> vstd::std_specs::convert::FromSpecImpl<Vec<T>> for OwnedSlice<'a, T> {
    open spec fn obeys_from_spec() -> bool {
        false
    }

    open spec fn from_spec(v: Vec<T>) -> Self {
        vstd::pervasive::arbitrary()
    }
}

/// Borrows the contents of a vector.
impl<'a, T> From<&'a Vec<T>> for OwnedSlice<'a, T> {
    fn from(v: &'a Vec<T>) -> (r: Self)
        ensures
            r.provenance() == Provenance::Borrowed,
            r@ == v@,
    {
        OwnedSlice::from_slice(v.as_slice())
    }
}

impl<'a, T> vstd::std_specs::convert::FromSpecImpl<&'a Vec<T>> for OwnedSlice<'a, T> {
    open spec fn obeys_from_spec() -> bool {
        false
    }

    open spec fn from_spec(v: &'a Vec<T>) -> Self {
        vstd::pervasive::arbitrary()
    }
}

/// Borrows a slice.
impl<'a, T> From<&'a [T]> for OwnedSlice<'a, T> {
    fn from(v: &'a [T]) -> (r: Self)
        ensures
            r.provenance() == Provenance::Borrowed,
            r@ == v@,
    {
        OwnedSlice::from_slice(v)
    }
}

impl<'a, T> vstd::std_specs::convert::FromSpecImpl<&'a [T]> for OwnedSlice<'a, T> {
    open spec fn obeys_from_spec() -> bool {
        false
    }

    open spec fn from_spec(v: &'a [T]) -> Self {
        vstd::pervasive::arbitrary()
    }
}

/// Gives up write access, as [`OwnedMutSlice::downgrade`] does.
impl<'a, T> From<OwnedMutSlice<'a, T>> for OwnedSlice<'a, T> {
    fn from(v: OwnedMutSlice<'a, T>) -> (r: Self)
        ensures
            r.provenance() == v.provenance(),
            r.raw_addr() == v.raw_addr(),
            r@ == v@,
    {
        v.downgrade()
    }
}

impl<'a, T> vstd::std_specs::convert::FromSpecImpl<OwnedMutSlice<'a, T>> for OwnedSlice<'a, T> {
    open spec fn obeys_from_spec() -> bool {
        false
    }

    open spec fn from_spec(v: OwnedMutSlice<'a, T>) -> Self {
        vstd::pervasive::arbitrary()
    }
}

/// Takes ownership of a vector.
impl<'a, T> From<Vec<T>> for OwnedMutSlice<'a, T> {
    fn from(v: Vec<T>) -> (r: Self)
        ensures
            r.provenance() == Provenance::Owned,
            r@ == v@,
    {
        OwnedMutSlice::from_vec(v)
    }
}

impl<'a, T> vstd::std_specs::convert::FromSpecImpl<Vec<T>> for OwnedMutSlice<'a, T> {
    open spec fn obeys_from_spec() -> bool {
        false
    }

    open spec fn from_spec(v: Vec<T>) -> Self {
        vstd::pervasive::arbitrary()
    }
}

/// Borrows the contents of a vector exclusively.
impl<'a, T> From<&'a mut Vec<T>> for OwnedMutSlice<'a, T> {
    fn from(v: &'a mut Vec<T>) -> (r: Self)
        ensures
            r.provenance() == Provenance::Borrowed,
            r@ == old(v)@,
    {
        OwnedMutSlice::from_mut_slice(v.as_mut_slice())
    }
}

impl<'a, T> vstd::std_specs::convert::FromSpecImpl<&'a mut Vec<T>> for OwnedMutSlice<'a, T> {
    open spec fn obeys_from_spec() -> bool {
        false
    }

    open spec fn from_spec(v: &'a mut Vec<T>) -> Self {
        vstd::pervasive::arbitrary()
    }
}

/// Borrows a slice exclusively.
impl<'a, T> From<&'a mut [T]> for OwnedMutSlice<'a, T> {
    fn from(v: &'a mut [T]) -> (r: Self)
        ensures
            r.provenance() == Provenance::Borrowed,
            r@ == old(v)@,
    {
        OwnedMutSlice::from_mut_slice(v)
    }
}

impl<'a, T> vstd::std_specs::convert::FromSpecImpl<&'a mut [T]> for OwnedMutSlice<'a, T> {
    open spec fn obeys_from_spec() -> bool {
        false
    }

    open spec fn from_spec(v: &'a mut [T]) -> Self {
        vstd::pervasive::arbitrary()
    }
}

/// Borrows, exclusively, the slice that a reference designates.
impl<'a, T> From<&'a mut &'a mut [T]> for OwnedMutSlice<'a, T> {
    fn from(v: &'a mut &'a mut [T]) -> (r: Self)
        ensures
            r.provenance() == Provenance::Borrowed,
            r@ == (*old(v))@,
    {
        OwnedMutSlice::from_mut_slice(&mut **v)
    }
}

impl<'a, T> vstd::std_specs::convert::FromSpecImpl<&'a mut &'a mut [T]> for OwnedMutSlice<'a, T> {
    open spec fn obeys_from_spec() -> bool {
        false
    }

    open spec fn from_spec(v: &'a mut &'a mut [T]) -> Self {
        vstd::pervasive::arbitrary()
    }
}

/// Decoding the wire form of any `OwnedSlice` gives an owned wrapper with the same
/// contents, whatever state `v` was in.
pub proof fn lemma_slice_round_trip<'a, 'b, T>(v: OwnedSlice<'a, T>, w: OwnedSlice<'b, T>)
    requires
        w.is_decoding_of(v.encoding()),
    ensures
        w@ == v@,
        w.provenance() == Provenance::Owned,
{
}

/// Taking ownership twice is taking it once: the second call hands its
/// argument back unchanged, as does every call on a wrapper that is owned
/// already.
pub proof fn lemma_slice_into_owned_idempotent<'a, T: Clone>(v: OwnedSlice<'a, T>, w1: OwnedSlice<'a, T>, w2: OwnedSlice<'a, T>)
    requires
        v.owned_copy(&w1),
        w1.owned_copy(&w2),
    ensures
        w2 == w1,
        v.provenance() == Provenance::Owned ==> w1 == v,
{
}

/// Decoding the wire form of any `OwnedMutSlice` gives an owned wrapper with the same
/// contents, whatever state `v` was in.
pub proof fn lemma_mut_slice_round_trip<'a, 'b, T>(v: OwnedMutSlice<'a, T>, w: OwnedMutSlice<'b, T>)
    requires
        w.is_decoding_of(v.encoding()),
    ensures
        w@ == v@,
        w.provenance() == Provenance::Owned,
{
}

/// Taking ownership twice is taking it once: the second call hands its
/// argument back unchanged, as does every call on a wrapper that is owned
/// already.
pub proof fn lemma_mut_slice_into_owned_idempotent<'a, T: Clone>(v: OwnedMutSlice<'a, T>, w1: OwnedMutSlice<'a, T>, w2: OwnedMutSlice<'a, T>)
    requires
        v.owned_copy(&w1),
        w1.owned_copy(&w2),
    ensures
        w2 == w1,
        v.provenance() == Provenance::Owned ==> w1 == v,
{
}

} // verus!
