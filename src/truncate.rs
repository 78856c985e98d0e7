use vstd::prelude::*;

verus! {

/// Narrows a shared slice to its first `len` elements.
pub fn truncate_ref<'a, T>(s: &'a [T], len: usize) -> (r: &'a [T])
    requires
        len <= s@.len(),
    ensures
        r@ == s@.take(len as int),
{
    let (head, _tail) = s.split_at(len);
    head
}

/// Narrows an exclusive slice to its first `len` elements. The elements past
/// `len` are left as they are.
pub fn truncate_mut<'a, T>(s: &'a mut [T], len: usize) -> (r: &'a mut [T])
    requires
        len <= old(s)@.len(),
    ensures
        r@ == old(s)@.take(len as int),
        final(s)@ == final(r)@ + old(s)@.skip(len as int),
{
    let (head, _tail) = s.split_at_mut(len);
    head
}

} // verus!
