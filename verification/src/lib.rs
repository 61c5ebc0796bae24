//! A bounded sequence container.
//!
//! `LimitedVec<T, N>` stores between zero and `N` elements of `T` in
//! insertion order. The backing storage always holds exactly `N` slots,
//! each either occupied or empty, and the occupied slots form a contiguous
//! prefix (the container is *head-packed*). The capacity `N` is fixed at
//! the type level, so no operation can grow the container beyond it.

pub mod iter;
pub mod laws;

use vstd::prelude::*;

verus! {

/// The two ways an operation on a `LimitedVec` can fail.
#[derive(Clone, Copy, Debug, PartialEq, Eq, Structural)]
pub enum LimitedVecError {
    /// An insertion or a construction would raise the length beyond the capacity.
    CapacityExceeded,
    /// A positional access named a slot that holds no element.
    OutOfBounds,
}

/// A sequence of at most `N` elements of `T`, kept in insertion order.
///
/// The abstract value of a container is the sequence of its occupied
/// elements, exposed as its view (`self@`).
#[derive(Clone, Debug, PartialEq, Eq)]
pub struct LimitedVec<T, const N: usize> {
    slots: Vec<Option<T>>,
    len: usize,
}

impl<T, const N: usize> View for LimitedVec<T, N> {
    type V = Seq<T>;

    closed spec fn view(&self) -> Seq<T> {
        Seq::new(self.len as nat, |i: int| self.slots@[i]->0)
    }
}

impl<T, const N: usize> LimitedVec<T, N> {
    /// The representation invariant: exactly `N` slots, the first `len`
    /// occupied and the rest empty.
    pub closed spec fn well_formed(&self) -> bool {
        &&& self.slots@.len() == N
        &&& self.len <= N
        &&& forall|i: int| 0 <= i < self.len ==> (#[trigger] self.slots@[i]) is Some
        &&& forall|i: int| self.len <= i < N ==> (#[trigger] self.slots@[i]) is None
    }

    /// Returns the count of items the container is holding.
    pub fn len(&self) -> (r: usize)
        requires
            self.well_formed(),
        ensures
            r == self@.len(),
    {
        self.len
    }

    /// Returns the number of items the container can hold.
    pub fn capacity(&self) -> (r: usize)
        ensures
            r == N,
    {
        N
    }

    /// Returns the number of empty slots left for further pushes.
    /// Together with the length it always accounts for the whole capacity.
    pub fn free(&self) -> (r: usize)
        requires
            self.well_formed(),
        ensures
            r == N - self@.len(),
            r + self@.len() == N,
    {
        N - self.len
    }

    /// Returns `true` if no item has been pushed onto the container.
    pub fn is_empty(&self) -> (r: bool)
        requires
            self.well_formed(),
        ensures
            r <==> self@.len() == 0,
    {
        self.len == 0
    }

    /// Returns `true` if no free slot is left.
    pub fn is_full(&self) -> (r: bool)
        requires
            self.well_formed(),
        ensures
            r <==> self@.len() == N,
    {
        self.len == N
    }

    /// Places `item` into the first empty slot, extending the occupied
    /// prefix by one. Fails with `CapacityExceeded`, leaving the container
    /// unchanged, exactly when the container is already full.
    pub fn push(&mut self, item: T) -> (r: Result<(), LimitedVecError>)
        requires
            old(self).well_formed(),
        ensures
            final(self).well_formed(),
            old(self)@.len() < N ==> r is Ok && final(self)@ == old(self)@.push(item),
            old(self)@.len() == N ==> r == Err::<(), LimitedVecError>(
                LimitedVecError::CapacityExceeded,
            ) && final(self)@ == old(self)@,
    {
        if self.len >= N {
            return Err(LimitedVecError::CapacityExceeded);
        }
        self.slots[self.len] = Some(item);
        self.len = self.len + 1;
        assert(self@ =~= old(self)@.push(item));
        Ok(())
    }

    /// Moves the last element out, marking its slot empty, or returns
    /// `None` when the container is empty.
    pub fn pop(&mut self) -> (r: Option<T>)
        requires
            old(self).well_formed(),
        ensures
            final(self).well_formed(),
            old(self)@.len() == 0 ==> r is None && final(self)@ == old(self)@,
            old(self)@.len() > 0 ==> r == Some(old(self)@.last()) && final(self)@ == old(
                self,
            )@.drop_last(),
    {
        if self.len == 0 {
            return None;
        }
        self.len = self.len - 1;
        let r = self.slots[self.len].take();
        assert(self@ =~= old(self)@.drop_last());
        r
    }

    /// Gets an item by its logical index: present exactly when `pos` lies
    /// in the occupied prefix. Never signals an error.
    pub fn get(&self, pos: usize) -> (r: Option<&T>)
        requires
            self.well_formed(),
        ensures
            pos < self@.len() ==> r is Some && *r->0 == self@[pos as int],
            pos >= self@.len() ==> r is None,
    {
        if pos >= self.len {
            return None;
        }
        self.slots[pos].as_ref()
    }

    /// Positional access meant for assertion-style use: returns the element
    /// at `pos` in the occupied prefix, and fails with `OutOfBounds` when
    /// the slot is empty or past the capacity.
    pub fn index(&self, pos: usize) -> (r: Result<&T, LimitedVecError>)
        requires
            self.well_formed(),
        ensures
            pos < self@.len() ==> r is Ok && *r->Ok_0 == self@[pos as int],
            pos >= self@.len() ==> r == Err::<&T, LimitedVecError>(LimitedVecError::OutOfBounds),
    {
        if pos >= self.len {
            return Err(LimitedVecError::OutOfBounds);
        }
        match self.slots[pos].as_ref() {
            Some(e) => Ok(e),
            None => Err(LimitedVecError::OutOfBounds),
        }
    }

    /// Returns the index of the last occupied slot, or `None` when the
    /// container is empty.
    pub fn last_idx(&self) -> (r: Option<usize>)
        requires
            self.well_formed(),
        ensures
            r is Some <==> self@.len() > 0,
            r is Some ==> r->0 == self@.len() - 1,
    {
        if self.len == 0 {
            None
        } else {
            Some(self.len - 1)
        }
    }

    /// Returns the last item of the container, or `None` if it is empty.
    pub fn last(&self) -> (r: Option<&T>)
        requires
            self.well_formed(),
        ensures
            r is Some <==> self@.len() > 0,
            r is Some ==> *r->0 == self@.last(),
    {
        if self.len == 0 {
            return None;
        }
        self.slots[self.len - 1].as_ref()
    }

    /// Returns an exclusive reference to the last item, or `None` if the
    /// container is empty. Writing through the reference replaces the last
    /// element and nothing else.
    pub fn last_mut(&mut self) -> (r: Option<&mut T>)
        requires
            old(self).well_formed(),
        ensures
            final(self).well_formed(),
            r is Some <==> old(self)@.len() > 0,
            old(self)@.len() == 0 ==> final(self)@ == old(self)@,
            old(self)@.len() > 0 ==> *r->0 == old(self)@.last() && final(self)@ =~= old(
                self,
            )@.update(old(self)@.len() - 1, *final(r->0)),
    {
        if self.len == 0 {
            return None;
        }
        let i = self.len - 1;
        let r = self.slots[i].as_mut();
        r
    }

    /// Returns a fresh forward iterator over the occupied prefix.
    pub fn iter(&self) -> (r: iter::Iter<'_, T, N>)
        requires
            self.well_formed(),
        ensures
            r.well_formed(),
            r.target() == self,
            r.cursor() == 0,
    {
        iter::Iter::new(self)
    }
}

impl<T, const N: usize> LimitedVec<T, N> where T: Default + Copy {
    /// Creates a new, empty container: every slot is empty.
    pub fn new() -> (r: Self)
        ensures
            r.well_formed(),
            r@ == Seq::<T>::empty(),
    {
        let mut slots: Vec<Option<T>> = Vec::new();
        while slots.len() < N
            invariant
                slots@.len() <= N,
                forall|i: int| 0 <= i < slots@.len() ==> (#[trigger] slots@[i]) is None,
            decreases N - slots@.len(),
        {
            slots.push(None);
        }
        let r = LimitedVec { slots, len: 0 };
        assert(r@ =~= Seq::<T>::empty());
        r
    }
}

/// What constructing a container of capacity `N` from the ordered sequence
/// `s` must yield: a well-formed container holding exactly `s` when `s`
/// fits, and `CapacityExceeded` when it does not. Both `from_sequence` and
/// `collect_from` promise exactly this, so the two agree on every input.
pub open spec fn construction_matches<T, const N: usize>(
    s: Seq<T>,
    r: Result<LimitedVec<T, N>, LimitedVecError>,
) -> bool {
    &&& s.len() <= N ==> r is Ok && r->Ok_0.well_formed() && r->Ok_0@ == s
    &&& s.len() > N ==> r == Err::<LimitedVec<T, N>, LimitedVecError>(
        LimitedVecError::CapacityExceeded,
    )
}

impl<T, const N: usize> LimitedVec<T, N> {
    /// Consumes an ordered sequence, copying its elements in order into the
    /// leading slots. Fails with `CapacityExceeded` exactly when the
    /// sequence holds more elements than the capacity.
    pub fn from_sequence(values: Vec<T>) -> (r: Result<Self, LimitedVecError>)
        ensures
            construction_matches(values@, r),
    {
        if values.len() > N {
            return Err(LimitedVecError::CapacityExceeded);
        }
        let ghost orig: Seq<T> = values@;
        let k = values.len();
        let mut vals = values;
        let mut slots: Vec<Option<T>> = Vec::new();
        proof {
            assert(vals@ =~= orig.skip(0));
        }
        while vals.len() > 0
            invariant
                vals@.len() + slots@.len() == k <= N,
                k == orig.len(),
                forall|i: int|
                    0 <= i < slots@.len() ==> (#[trigger] slots@[i]) is Some && slots@[i]->0
                        == orig[i],
                vals@ == orig.skip(slots@.len() as int),
            decreases vals@.len(),
        {
            let ghost n = slots@.len() as int;
            let v = vals.remove(0);
            proof {
                assert(v == orig[n]);
                assert(vals@ =~= orig.skip(n + 1));
            }
            let ghost prev = slots@;
            slots.push(Some(v));
            proof {
                assert forall|i: int| 0 <= i < slots@.len() implies (#[trigger] slots@[i]) is Some
                    && slots@[i]->0 == orig[i] by {
                    assert(slots@[i] == prev.push(Some(v))[i]);
                    if i < n {
                        assert(prev.push(Some(v))[i] == prev[i]);
                    }
                }
            }
        }
        while slots.len() < N
            invariant
                k <= slots@.len() <= N,
                k == orig.len(),
                forall|i: int|
                    0 <= i < k ==> (#[trigger] slots@[i]) is Some && slots@[i]->0 == orig[i],
                forall|i: int| k <= i < slots@.len() ==> slots@[i] is None,
            decreases N - slots@.len(),
        {
            slots.push(None);
        }
        let r = LimitedVec { slots, len: k };
        assert(r@ =~= orig);
        Ok(r)
    }

    /// Consumes a sequence of elements one at a time, placing each into the
    /// next empty slot. Fails with `CapacityExceeded` at the moment a push
    /// would make the stored count exceed the capacity. The result is the
    /// same as `from_sequence` of the same elements.
    pub fn collect_from(values: Vec<T>) -> (r: Result<Self, LimitedVecError>)
        ensures
            construction_matches(values@, r),
    {
        let mut slots: Vec<Option<T>> = Vec::new();
        while slots.len() < N
            invariant
                slots@.len() <= N,
                forall|i: int| 0 <= i < slots@.len() ==> (#[trigger] slots@[i]) is None,
            decreases N - slots@.len(),
        {
            slots.push(None);
        }
        let mut out = LimitedVec { slots, len: 0 };
        assert(out@ =~= values@.take(0));
        let mut vals = values;
        let mut taken: usize = 0;
        while vals.len() > 0
            invariant
                out.well_formed(),
                taken + vals@.len() == values@.len(),
                out@ =~= values@.take(taken as int),
                vals@ == values@.skip(taken as int),
            decreases vals@.len(),
        {
            let v = vals.remove(0);
            match out.push(v) {
                Ok(_) => {},
                Err(e) => {
                    return Err(e);
                },
            }
            taken = taken + 1;
            assert(out@ =~= values@.take(taken as int));
        }
        assert(out@ =~= values@);
        Ok(out)
    }
}

/// The length of a well-formed container never exceeds its capacity.
pub proof fn lemma_len_within_capacity<T, const N: usize>(c: &LimitedVec<T, N>)
    requires
        c.well_formed(),
    ensures
        0 <= c@.len() <= N,
{
}

} // verus!
