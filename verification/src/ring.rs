//! The guard for `VecDeque`: a ring that is cheap to extend at both ends
//! for as long as a slot is free.
use crate::element::Element;
use crate::guard::TryPush;
use crate::model::{guarded_push, guarded_push_front_ring};
use std::collections::VecDeque;
use vstd::prelude::*;

verus! {

/// Calls `VecDeque::capacity`, the number of elements the deque can hold
/// without reallocating. Taken on trust: that number is never below the
/// number of elements held. Nothing else is claimed of it; in particular
/// two readings of one deque are not known to agree.
#[verifier::external_body]
fn deque_capacity<T>(ring: &VecDeque<T>) -> (capacity: usize)
    ensures
        capacity >= ring@.len(),
{
    ring.capacity()
}

/// Puts `elem` last in `ring` unless `capacity`, the number of slots that
/// `ring` has allocated, is used up.
pub fn deque_push_within<T>(ring: &mut VecDeque<T>, capacity: usize, elem: T) -> (out: Element<T>)
    ensures
        (out, final(ring)@) == guarded_push(old(ring)@, capacity as nat, elem),
        capacity == old(ring)@.len() ==> {
            &&& out == Element::NotAdded(elem)
            &&& *final(ring) == *old(ring)
        },
        capacity != old(ring)@.len() ==> {
            &&& out is Added
            &&& final(ring)@ == old(ring)@.push(elem)
        },
{
    if capacity == ring.len() {
        Element::NotAdded(elem)
    } else {
        ring.push_back(elem);
        Element::Added
    }
}

/// Puts `elem` first in `ring` unless `capacity`, the number of slots that
/// `ring` has allocated, is used up. How many elements are already held
/// makes no difference: the ring moves its head, not its elements.
pub fn deque_push_front_within<T>(ring: &mut VecDeque<T>, capacity: usize, elem: T) -> (out:
    Element<T>)
    ensures
        (out, final(ring)@) == guarded_push_front_ring(old(ring)@, capacity as nat, elem),
        capacity == old(ring)@.len() ==> {
            &&& out == Element::NotAdded(elem)
            &&& *final(ring) == *old(ring)
        },
        capacity != old(ring)@.len() ==> {
            &&& out is Added
            &&& final(ring)@ == seq![elem] + old(ring)@
        },
{
    if capacity == ring.len() {
        Element::NotAdded(elem)
    } else {
        ring.push_front(elem);
        Element::Added
    }
}

impl<T> TryPush<T> for VecDeque<T> {
    open spec fn contents(&self) -> Seq<T> {
        self@
    }

    /// Reads the deque's capacity and puts `elem` last if a slot is free.
    ///
    /// What the capacity is at the time of the call is not known to the
    /// caller's proof, so the call is promised to end as
    /// [`deque_push_within`] does for some capacity not below the length.
    fn try_push(&mut self, elem: T) -> (out: Element<T>)
        ensures
            exists|capacity: nat|
                capacity >= old(self)@.len() && (out, final(self)@) == #[trigger] guarded_push(
                    old(self)@,
                    capacity,
                    elem,
                ),
    {
        let capacity = deque_capacity(self);
        deque_push_within(self, capacity, elem)
    }

    /// Reads the deque's capacity and puts `elem` first if a slot is free.
    ///
    /// What the capacity is at the time of the call is not known to the
    /// caller's proof, so the call is promised to end as
    /// [`deque_push_front_within`] does for some capacity not below the
    /// length.
    fn try_push_front(&mut self, elem: T) -> (out: Element<T>)
        ensures
            exists|capacity: nat|
                capacity >= old(self)@.len() && (out, final(self)@)
                    == #[trigger] guarded_push_front_ring(old(self)@, capacity, elem),
    {
        let capacity = deque_capacity(self);
        deque_push_front_within(self, capacity, elem)
    }
}

} // verus!
