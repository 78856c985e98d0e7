use vstd::prelude::*;
use vstd::pervasive::cloned;
use crate::marker::Provenance;

verus! {

/// One value held through a raw address or an owned box, with no lifetime to
/// carry, for storage that cannot name one. Its wire form is always the
/// value, and what is decoded is always owned.
#[derive(Debug)]
pub enum OwnedPtr<T: 'static> {
    /// A raw address and the value it designates.
    Ptr(usize, &'static T),
    /// An owned box.
    Owned(Box<T>),
}

impl<T: 'static> View for OwnedPtr<T> {
    type V = T;

    /// The value held, whatever the state.
    open spec fn view(&self) -> T {
        match *self {
            OwnedPtr::Ptr(_, r) => *r,
            OwnedPtr::Owned(b) => *b,
        }
    }
}

impl<T: 'static> OwnedPtr<T> {
    /// Which state the wrapper holds.
    pub open spec fn provenance(&self) -> Provenance {
        match *self {
            OwnedPtr::Ptr(..) => Provenance::RawPointer,
            OwnedPtr::Owned(_) => Provenance::Owned,
        }
    }

    /// Wraps the raw address `addr` of `target`, which the caller keeps valid
    /// for as long as the wrapper is used.
    pub fn from_raw(addr: usize, target: &'static T) -> (r: Self)
        ensures
            r matches OwnedPtr::Ptr(a, _) && a == addr,
            r@ == *target,
    {
        OwnedPtr::Ptr(addr, target)
    }

    /// Owns `val`.
    pub fn owned(val: T) -> (r: Self)
        ensures
            r.provenance() == Provenance::Owned,
            r@ == val,
    {
        OwnedPtr::Owned(Box::new(val))
    }

    /// The value held, whatever the state.
    pub fn as_ref(&self) -> (r: &T)
        ensures
            *r == self@,
    {
        match self {
            OwnedPtr::Ptr(_, r) => r,
            OwnedPtr::Owned(v) => v,
        }
    }

    /// True where the wrapper owns its value.
    pub fn is_owned(&self) -> (r: bool)
        ensures
            r == (self.provenance() == Provenance::Owned),
    {
        match self {
            OwnedPtr::Ptr(..) => false,
            OwnedPtr::Owned(_) => true,
        }
    }

    /// What the wire form holds: the value.
    pub open spec fn encoding(&self) -> T {
        self@
    }

    /// `self` is what decoding `wire` gives.
    pub open spec fn is_decoding_of(&self, wire: T) -> bool {
        self.provenance() == Provenance::Owned && self@ == wire
    }

    /// The value to encode, the same in every state.
    pub fn encode(&self) -> (r: &T)
        ensures
            *r == self.encoding(),
    {
        self.as_ref()
    }

    /// Rebuilds a wrapper from a decoded value: always owned.
    pub fn decode(wire: T) -> (r: Self)
        ensures
            r.is_decoding_of(wire),
    {
        OwnedPtr::Owned(Box::new(wire))
    }
}

impl<T: Clone + 'static> OwnedPtr<T> {
    /// `r` is what [`OwnedPtr::into_owned`] makes of `self`: an owned clone of
    /// the value, or `self` itself where it is owned already.
    pub open spec fn owned_copy(&self, r: &Self) -> bool {
        &&& r.provenance() == Provenance::Owned
        &&& cloned(self@, r@)
        &&& self.provenance() == Provenance::Owned ==> *r == *self
    }

    /// Clones the value into a box of its own, unless the wrapper owns it
    /// already.
    pub fn into_owned(self) -> (r: Self)
        ensures
            self.owned_copy(&r),
    {
        match self {
            OwnedPtr::Ptr(_, p) => OwnedPtr::Owned(Box::new(p.clone())),
            OwnedPtr::Owned(v) => OwnedPtr::Owned(v),
        }
    }
}

impl<T: Clone + 'static> Clone for OwnedPtr<T> {
    /// The same address, or a clone of the owned value.
    fn clone(&self) -> (r: Self)
        ensures
            r.provenance() == self.provenance(),
            cloned(self@, r@),
            self.provenance() != Provenance::Owned ==> r == *self,
    {
        match self {
            OwnedPtr::Ptr(addr, r) => OwnedPtr::Ptr(*addr, r),
            OwnedPtr::Owned(v) => OwnedPtr::Owned(v.clone()),
        }
    }
}

/// One value held through a raw address or an owned box, writable in both
/// states, with no lifetime to carry.
#[derive(Debug)]
pub enum OwnedMutPtr<T: 'static> {
    /// A raw address and the value it designates.
    Ptr(usize, &'static mut T),
    /// An owned box.
    Owned(Box<T>),
}

impl<T: 'static> View for OwnedMutPtr<T> {
    type V = T;

    /// The value held, whatever the state.
    open spec fn view(&self) -> T {
        match *self {
            OwnedMutPtr::Ptr(_, r) => *r,
            OwnedMutPtr::Owned(b) => *b,
        }
    }
}

impl<T: 'static> OwnedMutPtr<T> {
    /// Which state the wrapper holds.
    pub open spec fn provenance(&self) -> Provenance {
        match *self {
            OwnedMutPtr::Ptr(..) => Provenance::RawPointer,
            OwnedMutPtr::Owned(_) => Provenance::Owned,
        }
    }

    /// Wraps the raw address `addr` of `target`, which the caller keeps valid,
    /// and unaliased by other writers, for as long as the wrapper is used.
    pub fn from_raw_mut(addr: usize, target: &'static mut T) -> (r: Self)
        ensures
            r matches OwnedMutPtr::Ptr(a, _) && a == addr,
            r@ == *old(target),
    {
        OwnedMutPtr::Ptr(addr, target)
    }

    /// Owns `val`.
    pub fn owned(val: T) -> (r: Self)
        ensures
            r.provenance() == Provenance::Owned,
            r@ == val,
    {
        OwnedMutPtr::Owned(Box::new(val))
    }

    /// The value held, whatever the state.
    pub fn as_ref(&self) -> (r: &T)
        ensures
            *r == self@,
    {
        match self {
            OwnedMutPtr::Ptr(_, r) => r,
            OwnedMutPtr::Owned(v) => v,
        }
    }

    /// The value held, writable, whatever the state. What is written through
    /// the result is what the wrapper holds afterwards.
    pub fn as_mut(&mut self) -> (r: &mut T)
        ensures
            *r == old(self)@,
            final(self)@ == *final(r),
            final(self).provenance() == old(self).provenance(),
    {
        match self {
            OwnedMutPtr::Ptr(_, r) => r,
            OwnedMutPtr::Owned(v) => v,
        }
    }

    /// True where the wrapper owns its value.
    pub fn is_owned(&self) -> (r: bool)
        ensures
            r == (self.provenance() == Provenance::Owned),
    {
        match self {
            OwnedMutPtr::Ptr(..) => false,
            OwnedMutPtr::Owned(_) => true,
        }
    }

    /// What the wire form holds: the value.
    pub open spec fn encoding(&self) -> T {
        self@
    }

    /// `self` is what decoding `wire` gives.
    pub open spec fn is_decoding_of(&self, wire: T) -> bool {
        self.provenance() == Provenance::Owned && self@ == wire
    }

    /// The value to encode, the same in every state.
    pub fn encode(&self) -> (r: &T)
        ensures
            *r == self.encoding(),
    {
        self.as_ref()
    }

    /// Rebuilds a wrapper from a decoded value: always owned.
    pub fn decode(wire: T) -> (r: Self)
        ensures
            r.is_decoding_of(wire),
    {
        OwnedMutPtr::Owned(Box::new(wire))
    }
}

impl<T: Clone + 'static> OwnedMutPtr<T> {
    /// `r` is what [`OwnedMutPtr::into_owned`] makes of `self`: an owned clone
    /// of the value, or `self` itself where it is owned already.
    pub open spec fn owned_copy(&self, r: &Self) -> bool {
        &&& r.provenance() == Provenance::Owned
        &&& cloned(self@, r@)
        &&& self.provenance() == Provenance::Owned ==> *r == *self
    }

    /// Clones the value into a box of its own, unless the wrapper owns it
    /// already.
    pub fn into_owned(self) -> (r: Self)
        ensures
            self.owned_copy(&r),
    {
        match self {
            OwnedMutPtr::Ptr(_, p) => OwnedMutPtr::Owned(Box::new(p.clone())),
            OwnedMutPtr::Owned(v) => OwnedMutPtr::Owned(v),
        }
    }
}

/// Decoding the wire form of any `OwnedPtr` gives an owned wrapper with the same
/// contents, whatever state `v` was in.
pub proof fn lemma_ptr_round_trip<T: 'static>(v: OwnedPtr<T>, w: OwnedPtr<T>)
    requires
        w.is_decoding_of(v.encoding()),
    ensures
        w@ == v@,
        w.provenance() == Provenance::Owned,
{
}

/// Taking ownership twice is taking it once: the second call hands its
/// argument back unchanged, as does every call on a wrapper that is owned
/// already.
pub proof fn lemma_ptr_into_owned_idempotent<T: Clone + 'static>(v: OwnedPtr<T>, w1: OwnedPtr<T>, w2: OwnedPtr<T>)
    requires
        v.owned_copy(&w1),
        w1.owned_copy(&w2),
    ensures
        w2 == w1,
        v.provenance() == Provenance::Owned ==> w1 == v,
{
}

/// Decoding the wire form of any `OwnedMutPtr` gives an owned wrapper with the same
/// contents, whatever state `v` was in.
pub proof fn lemma_mut_ptr_round_trip<T: 'static>(v: OwnedMutPtr<T>, w: OwnedMutPtr<T>)
    requires
        w.is_decoding_of(v.encoding()),
    ensures
        w@ == v@,
        w.provenance() == Provenance::Owned,
{
}

/// Taking ownership twice is taking it once: the second call hands its
/// argument back unchanged, as does every call on a wrapper that is owned
/// already.
pub proof fn lemma_mut_ptr_into_owned_idempotent<T: Clone + 'static>(v: OwnedMutPtr<T>, w1: OwnedMutPtr<T>, w2: OwnedMutPtr<T>)
    requires
        v.owned_copy(&w1),
        w1.owned_copy(&w2),
    ensures
        w2 == w1,
        v.provenance() == Provenance::Owned ==> w1 == v,
{
}

} // verus!
