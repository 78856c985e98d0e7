use vstd::prelude::*;
use vstd::pervasive::cloned;
use crate::marker::{Provenance, UnsafeMarker};

verus! {

/// One value held through a raw address, a shared borrow or an owned box. Its
/// wire form is always the value, and what is decoded is always owned.
#[derive(Debug)]
pub enum OwnedRef<'a, T: ?Sized> {
    /// A raw address and the value it designates.
    RefRaw(usize, &'a T, UnsafeMarker),
    /// A shared borrow.
    Ref(&'a T),
    /// An owned box.
    Owned(Box<T>),
}

impl<'a, T> View for OwnedRef<'a, T> {
    type V = T;

    /// The value held, whatever the state.
    open spec fn view(&self) -> T {
        match *self {
            OwnedRef::RefRaw(_, r, _) => *r,
            OwnedRef::Ref(r) => *r,
            OwnedRef::Owned(b) => *b,
        }
    }
}

impl<'a, T: ?Sized> OwnedRef<'a, T> {
    /// Which state the wrapper holds.
    pub open spec fn provenance(&self) -> Provenance {
        match *self {
            OwnedRef::RefRaw(..) => Provenance::RawPointer,
            OwnedRef::Ref(_) => Provenance::Borrowed,
            OwnedRef::Owned(_) => Provenance::Owned,
        }
    }

    /// Wraps the raw address `addr` of `target`. The caller keeps the value
    /// valid for as long as the wrapper is used. A null address is a caller
    /// error.
    pub fn from_ptr(addr: usize, target: &'a T) -> (r: Self)
        requires
            addr != 0,
        ensures
            r matches OwnedRef::RefRaw(a, t, _) && a == addr && t == target,
    {
        OwnedRef::RefRaw(addr, target, UnsafeMarker::new())
    }

    /// True where the wrapper holds a raw address.
    pub fn is_raw(&self) -> (r: bool)
        ensures
            r == (self.provenance() == Provenance::RawPointer),
    {
        match self {
            OwnedRef::RefRaw(..) => true,
            _ => false,
        }
    }

    /// The owned box, where the wrapper holds one.
    pub fn into_owned(self) -> (r: Option<Box<T>>)
        ensures
            self.provenance() == Provenance::Owned <==> r is Some,
            self matches OwnedRef::Owned(b) ==> r == Some(b),
    {
        match self {
            OwnedRef::Owned(val) => Some(val),
            _ => None,
        }
    }
}

impl<'a, T> OwnedRef<'a, T> {
    /// Owns `val`.
    pub fn owned(val: T) -> (r: Self)
        ensures
            r.provenance() == Provenance::Owned,
            r@ == val,
    {
        OwnedRef::Owned(Box::new(val))
    }

    /// The value held, whatever the state.
    pub fn as_ref(&self) -> (r: &T)
        ensures
            *r == self@,
    {
        match self {
            OwnedRef::RefRaw(_, r, _) => r,
            OwnedRef::Ref(r) => r,
            OwnedRef::Owned(v) => v,
        }
    }

    /// True where the wrapper owns its value.
    pub fn is_owned(&self) -> (r: bool)
        ensures
            r == (self.provenance() == Provenance::Owned),
    {
        match self {
            OwnedRef::RefRaw(..) | OwnedRef::Ref(_) => false,
            OwnedRef::Owned(_) => true,
        }
    }

    /// What the wire form holds: the value.
    pub open spec fn encoding(&self) -> T {
        self@
    }

    /// `self` is what decoding `wire` gives.
    pub open spec fn is_decoding_of(&self, wire: T) -> bool {
        self.provenance() == Provenance::Owned && self@ == wire
    }

    /// The value to encode, the same in every state.
    pub fn encode(&self) -> (r: &T)
        ensures
            *r == self.encoding(),
    {
        self.as_ref()
    }

    /// Rebuilds a wrapper from a decoded value: always owned.
    pub fn decode(wire: T) -> (r: Self)
        ensures
            r.is_decoding_of(wire),
    {
        OwnedRef::Owned(Box::new(wire))
    }
}

impl<'a, T: Clone> OwnedRef<'a, T> {
    /// `r` is what [`OwnedRef::make_owned`] makes of `self`: an owned clone of
    /// the value, or `self` itself where it is owned already.
    pub open spec fn owned_copy(&self, r: &Self) -> bool {
        &&& r.provenance() == Provenance::Owned
        &&& cloned(self@, r@)
        &&& self.provenance() == Provenance::Owned ==> *r == *self
    }

    /// Clones the value into a box of its own, unless the wrapper owns it
    /// already.
    pub fn make_owned(self) -> (r: Self)
        ensures
            self.owned_copy(&r),
    {
        match self {
            OwnedRef::RefRaw(_, r, _) => OwnedRef::Owned(Box::new(r.clone())),
            OwnedRef::Ref(r) => OwnedRef::Owned(Box::new(r.clone())),
            OwnedRef::Owned(v) => OwnedRef::Owned(v),
        }
    }
}

impl<'a, T: Clone> Clone for OwnedRef<'a, T> {
    /// The same address or borrow, or a clone of the owned value.
    fn clone(&self) -> (r: Self)
        ensures
            r.provenance() == self.provenance(),
            cloned(self@, r@),
            self.provenance() != Provenance::Owned ==> r == *self,
    {
        match self {
            OwnedRef::RefRaw(addr, r, marker) => OwnedRef::RefRaw(*addr, r, *marker),
            OwnedRef::Ref(r) => OwnedRef::Ref(r),
            OwnedRef::Owned(v) => OwnedRef::Owned(v.clone()),
        }
    }
}

impl<'a> OwnedRef<'a, [u8]> {
    /// The bytes held, whatever the state.
    pub open spec fn bytes(&self) -> Seq<u8> {
        match *self {
            OwnedRef::RefRaw(_, r, _) => r@,
            OwnedRef::Ref(r) => r@,
            OwnedRef::Owned(b) => b@,
        }
    }

    /// The bytes held, whatever the state.
    pub fn as_ref(&self) -> (r: &[u8])
        ensures
            r@ == self.bytes(),
    {
        match self {
            OwnedRef::RefRaw(_, r, _) => r,
            OwnedRef::Ref(r) => r,
            OwnedRef::Owned(v) => v,
        }
    }
}

/// One value held through a raw address, an exclusive borrow or an owned box,
/// readable and writable in each state.
#[derive(Debug)]
pub enum OwnedRefMut<'a, T: ?Sized> {
    /// A raw address and the value it designates.
    RefRaw(usize, &'a mut T, UnsafeMarker),
    /// An exclusive borrow.
    Ref(&'a mut T),
    /// An owned box.
    Owned(Box<T>),
}

impl<'a, T> View for OwnedRefMut<'a, T> {
    type V = T;

    /// The value held, whatever the state.
    open spec fn view(&self) -> T {
        match *self {
            OwnedRefMut::RefRaw(_, r, _) => *r,
            OwnedRefMut::Ref(r) => *r,
            OwnedRefMut::Owned(b) => *b,
        }
    }
}

impl<'a, T: ?Sized> OwnedRefMut<'a, T> {
    /// Which state the wrapper holds.
    pub open spec fn provenance(&self) -> Provenance {
        match *self {
            OwnedRefMut::RefRaw(..) => Provenance::RawPointer,
            OwnedRefMut::Ref(_) => Provenance::Borrowed,
            OwnedRefMut::Owned(_) => Provenance::Owned,
        }
    }
}

impl<'a, T> OwnedRefMut<'a, T> {
    /// Wraps the raw address `addr` of `target`. The caller keeps the value
    /// valid, and unaliased by other writers, for as long as the wrapper is
    /// used. A null address is a caller error.
    pub fn from_mut_ptr(addr: usize, target: &'a mut T) -> (r: Self)
        requires
            addr != 0,
        ensures
            r matches OwnedRefMut::RefRaw(a, _, _) && a == addr,
            r@ == *old(target),
    {
        OwnedRefMut::RefRaw(addr, target, UnsafeMarker::new())
    }

    /// Owns `val`.
    pub fn owned(val: T) -> (r: Self)
        ensures
            r.provenance() == Provenance::Owned,
            r@ == val,
    {
        OwnedRefMut::Owned(Box::new(val))
    }

    /// The value held, whatever the state.
    pub fn as_ref(&self) -> (r: &T)
        ensures
            *r == self@,
    {
        match self {
            OwnedRefMut::RefRaw(_, r, _) => r,
            OwnedRefMut::Ref(r) => r,
            OwnedRefMut::Owned(v) => v,
        }
    }

    /// The value held, writable, whatever the state. What is written through
    /// the result is what the wrapper holds afterwards.
    pub fn as_mut(&mut self) -> (r: &mut T)
        ensures
            *r == old(self)@,
            final(self)@ == *final(r),
            final(self).provenance() == old(self).provenance(),
    {
        match self {
            OwnedRefMut::RefRaw(_, r, _) => r,
            OwnedRefMut::Ref(r) => r,
            OwnedRefMut::Owned(v) => v,
        }
    }

    /// True where the wrapper owns its value.
    pub fn is_owned(&self) -> (r: bool)
        ensures
            r == (self.provenance() == Provenance::Owned),
    {
        match self {
            OwnedRefMut::RefRaw(..) | OwnedRefMut::Ref(_) => false,
            OwnedRefMut::Owned(_) => true,
        }
    }

    /// What the wire form holds: the value.
    pub open spec fn encoding(&self) -> T {
        self@
    }

    /// `self` is what decoding `wire` gives.
    pub open spec fn is_decoding_of(&self, wire: T) -> bool {
        self.provenance() == Provenance::Owned && self@ == wire
    }

    /// The value to encode, the same in every state.
    pub fn encode(&self) -> (r: &T)
        ensures
            *r == self.encoding(),
    {
        self.as_ref()
    }

    /// Rebuilds a wrapper from a decoded value: always owned.
    pub fn decode(wire: T) -> (r: Self)
        ensures
            r.is_decoding_of(wire),
    {
        OwnedRefMut::Owned(Box::new(wire))
    }
}

impl<'a, T: Clone> OwnedRefMut<'a, T> {
    /// `r` is what [`OwnedRefMut::into_owned`] makes of `self`: an owned clone
    /// of the value, or `self` itself where it is owned already.
    pub open spec fn owned_copy(&self, r: &Self) -> bool {
        &&& r.provenance() == Provenance::Owned
        &&& cloned(self@, r@)
        &&& self.provenance() == Provenance::Owned ==> *r == *self
    }

    /// Clones the value into a box of its own, unless the wrapper owns it
    /// already.
    pub fn into_owned(self) -> (r: Self)
        ensures
            self.owned_copy(&r),
    {
        match self {
            OwnedRefMut::RefRaw(_, r, _) => OwnedRefMut::Owned(Box::new(r.clone())),
            OwnedRefMut::Ref(r) => OwnedRefMut::Owned(Box::new(r.clone())),
            OwnedRefMut::Owned(v) => OwnedRefMut::Owned(v),
        }
    }
}

impl<'a> OwnedRefMut<'a, [u8]> {
    /// The bytes held, whatever the state.
    pub open spec fn bytes(&self) -> Seq<u8> {
        match *self {
            OwnedRefMut::RefRaw(_, r, _) => r@,
            OwnedRefMut::Ref(r) => r@,
            OwnedRefMut::Owned(b) => b@,
        }
    }

    /// Wraps the raw address `addr` of the bytes `target`. The caller keeps
    /// them valid, and unaliased by other writers, for as long as the wrapper
    /// is used. A null address is a caller error.
    pub fn from_mut_bytes_ptr(addr: usize, target: &'a mut [u8]) -> (r: Self)
        requires
            addr != 0,
        ensures
            r matches OwnedRefMut::RefRaw(a, _, _) && a == addr,
            r.bytes() == old(target)@,
    {
        OwnedRefMut::RefRaw(addr, target, UnsafeMarker::new())
    }

    /// The bytes held, whatever the state.
    pub fn as_ref(&self) -> (r: &[u8])
        ensures
            r@ == self.bytes(),
    {
        match self {
            OwnedRefMut::RefRaw(_, r, _) => r,
            OwnedRefMut::Ref(r) => r,
            OwnedRefMut::Owned(v) => v,
        }
    }

    /// The bytes held, writable, whatever the state. What is written through
    /// the result is what the wrapper holds afterwards.
    pub fn as_mut(&mut self) -> (r: &mut [u8])
        ensures
            r@ == old(self).bytes(),
            final(self).bytes() == final(r)@,
            final(self).provenance() == old(self).provenance(),
    {
        match self {
            OwnedRefMut::RefRaw(_, r, _) => r,
            OwnedRefMut::Ref(r) => r,
            OwnedRefMut::Owned(v) => v,
        }
    }
}

/// Decoding the wire form of any `OwnedRef` gives an owned wrapper with the same
/// contents, whatever state `v` was in.
pub proof fn lemma_ref_round_trip<'a, 'b, T>(v: OwnedRef<'a, T>, w: OwnedRef<'b, T>)
    requires
        w.is_decoding_of(v.encoding()),
    ensures
        w@ == v@,
        w.provenance() == Provenance::Owned,
{
}

/// Taking ownership twice is taking it once: the second call hands its
/// argument back unchanged, as does every call on a wrapper that is owned
/// already.
pub proof fn lemma_ref_into_owned_idempotent<'a, T: Clone>(v: OwnedRef<'a, T>, w1: OwnedRef<'a, T>, w2: OwnedRef<'a, T>)
    requires
        v.owned_copy(&w1),
        w1.owned_copy(&w2),
    ensures
        w2 == w1,
        v.provenance() == Provenance::Owned ==> w1 == v,
{
}

/// Decoding the wire form of any `OwnedRefMut` gives an owned wrapper with the same
/// contents, whatever state `v` was in.
pub proof fn lemma_ref_mut_round_trip<'a, 'b, T>(v: OwnedRefMut<'a, T>, w: OwnedRefMut<'b, T>)
    requires
        w.is_decoding_of(v.encoding()),
    ensures
        w@ == v@,
        w.provenance() == Provenance::Owned,
{
}

/// Taking ownership twice is taking it once: the second call hands its
/// argument back unchanged, as does every call on a wrapper that is owned
/// already.
pub proof fn lemma_ref_mut_into_owned_idempotent<'a, T: Clone>(v: OwnedRefMut<'a, T>, w1: OwnedRefMut<'a, T>, w2: OwnedRefMut<'a, T>)
    requires
        v.owned_copy(&w1),
        w1.owned_copy(&w2),
    ensures
        w2 == w1,
        v.provenance() == Provenance::Owned ==> w1 == v,
{
}

} // verus!
