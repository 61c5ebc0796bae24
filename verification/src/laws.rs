//! General laws of the container, stated and proved over the same
//! spec-level values that the executable contracts use.

use vstd::prelude::*;
use crate::{construction_matches, lemma_len_within_capacity, LimitedVec, LimitedVecError};

verus! {

/// Law: constructing a container from a sequence is deterministic. Any two
/// results that meet the construction contract — as both `from_sequence`
/// and `collect_from` promise — succeed on exactly the same inputs, hold
/// the same elements and fail with the same error, so `collect_from` of a
/// sequence equals `from_sequence` of that sequence.
pub proof fn lemma_construction_deterministic<T, const N: usize>(
    s: Seq<T>,
    r1: Result<LimitedVec<T, N>, LimitedVecError>,
    r2: Result<LimitedVec<T, N>, LimitedVecError>,
)
    requires
        construction_matches(s, r1),
        construction_matches(s, r2),
    ensures
        r1 is Ok <==> r2 is Ok,
        r1 is Ok ==> r1->Ok_0@ == r2->Ok_0@,
        r1 is Err ==> r1->Err_0 == r2->Err_0,
{
}

/// Law: serialization round trip. The serialized form of a container is
/// the ordered sequence of its occupied elements, `c@`, whose length is
/// the occupancy and not the capacity. That sequence always fits the same
/// capacity, so rebuilding from it — as `from_sequence` promises — always
/// succeeds and yields a container holding equal contents.
pub proof fn lemma_serialization_round_trip<T, const N: usize>(
    c: &LimitedVec<T, N>,
    r: Result<LimitedVec<T, N>, LimitedVecError>,
)
    requires
        c.well_formed(),
        construction_matches(c@, r),
    ensures
        r is Ok,
        r->Ok_0@ == c@,
{
    lemma_len_within_capacity(c);
}

/// Law: a push followed by a pop returns the pushed value and leaves the
/// contents, and with them the length, unchanged. `push` appends its item
/// to the view; `pop` returns the last element of the view and drops it.
pub proof fn lemma_push_then_pop<T>(s: Seq<T>, v: T)
    ensures
        s.push(v).last() == v,
        s.push(v).drop_last() == s,
{
    assert(s.push(v).drop_last() =~= s);
}

/// The contents left behind after `k` pops, each of which drops the last
/// element, as the contract of `pop` states.
pub open spec fn after_pops<T>(s: Seq<T>, k: nat) -> Seq<T>
    decreases k,
{
    if k == 0 {
        s
    } else {
        after_pops(s.drop_last(), (k - 1) as nat)
    }
}

/// The values that `k` successive pops return, in the order they come out.
pub open spec fn popped_values<T>(s: Seq<T>, k: nat) -> Seq<T>
    decreases k,
{
    if k == 0 {
        Seq::empty()
    } else {
        seq![s.last()] + popped_values(s.drop_last(), (k - 1) as nat)
    }
}

/// Law: from any starting contents `s`, pushing the values of `vs` in
/// order and then popping as many times returns the pushed values in
/// reverse order and leaves the starting contents. (On a container of
/// capacity `N` the pushes all succeed when `s.len() + vs.len() <= N`.)
pub proof fn lemma_push_pop_algebra<T>(s: Seq<T>, vs: Seq<T>)
    ensures
        after_pops(s + vs, vs.len()) == s,
        popped_values(s + vs, vs.len()) == vs.reverse(),
    decreases vs.len(),
{
    if vs.len() == 0 {
        assert(s + vs =~= s);
        assert(popped_values(s + vs, 0) =~= vs.reverse());
    } else {
        let vs1 = vs.drop_last();
        lemma_push_pop_algebra(s, vs1);
        assert((s + vs).drop_last() =~= s + vs1);
        assert((s + vs).last() == vs.last());
        assert(popped_values(s + vs, vs.len()) == seq![vs.last()] + popped_values(
            s + vs1,
            vs1.len(),
        ));
        assert(seq![vs.last()] + vs1.reverse() =~= vs.reverse());
    }
}

} // verus!
