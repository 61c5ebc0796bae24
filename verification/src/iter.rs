//! A forward cursor over the occupied prefix of a `LimitedVec`.

use vstd::prelude::*;
use crate::LimitedVec;

verus! {

/// A forward iterator over a borrowed container. It yields shared
/// references to the occupied elements in insertion order and then keeps
/// yielding an absent result.
pub struct Iter<'a, T, const N: usize> {
    lvec: &'a LimitedVec<T, N>,
    pos: usize,
}

impl<'a, T, const N: usize> Iter<'a, T, N> {
    /// The container being iterated.
    pub closed spec fn target(&self) -> &'a LimitedVec<T, N> {
        self.lvec
    }

    /// The position of the cursor: the number of elements already yielded.
    pub closed spec fn cursor(&self) -> int {
        self.pos as int
    }

    /// The cursor never runs past the occupied prefix.
    pub open spec fn well_formed(&self) -> bool {
        &&& self.target().well_formed()
        &&& 0 <= self.cursor() <= self.target()@.len()
    }

    /// Creates a fresh iterator positioned at the first element.
    pub fn new(lvec: &'a LimitedVec<T, N>) -> (r: Self)
        requires
            lvec.well_formed(),
        ensures
            r.well_formed(),
            r.target() == lvec,
            r.cursor() == 0,
    {
        Self { lvec, pos: 0 }
    }

    /// Yields a shared reference to the element under the cursor and
    /// advances, or yields `None` once the occupied prefix is exhausted.
    /// Further calls keep yielding `None`.
    pub fn next(&mut self) -> (r: Option<&'a T>)
        requires
            old(self).well_formed(),
        ensures
            final(self).well_formed(),
            final(self).target() == old(self).target(),
            old(self).cursor() < old(self).target()@.len() ==> r is Some && *r->0 == old(
                self,
            ).target()@[old(self).cursor()] && final(self).cursor() == old(self).cursor() + 1,
            old(self).cursor() >= old(self).target()@.len() ==> r is None && final(self).cursor()
                == old(self).cursor(),
    {
        let item = self.lvec.get(self.pos);
        if item.is_some() {
            self.pos = self.pos + 1;
        }
        item
    }
}

} // verus!
