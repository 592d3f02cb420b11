//! The guard for `Vec`: one unbroken block, cheap to extend at the back,
//! and at the front only while it is empty.
use crate::element::Element;
use crate::guard::TryPush;
use crate::model::{guarded_push, guarded_push_front_contiguous};
use vstd::prelude::*;

verus! {

/// Calls `Vec::capacity`, the number of elements the vector can hold without
/// reallocating. Taken on trust: that number is never below the number of
/// elements held. Nothing else is claimed of it; in particular two readings
/// of one vector are not known to agree.
#[verifier::external_body]
fn vec_capacity<T>(buf: &Vec<T>) -> (capacity: usize)
    ensures
        capacity >= buf@.len(),
{
    buf.capacity()
}

/// Appends `elem` to `buf` unless `capacity`, the number of slots that `buf`
/// has allocated, is used up.
pub fn vec_push_within<T>(buf: &mut Vec<T>, capacity: usize, elem: T) -> (out: Element<T>)
    ensures
        (out, final(buf)@) == guarded_push(old(buf)@, capacity as nat, elem),
        capacity == old(buf)@.len() ==> {
            &&& out == Element::NotAdded(elem)
            &&& *final(buf) == *old(buf)
        },
        capacity != old(buf)@.len() ==> {
            &&& out is Added
            &&& final(buf)@ == old(buf)@.push(elem)
        },
{
    if capacity == buf.len() {
        Element::NotAdded(elem)
    } else {
        buf.push(elem);
        Element::Added
    }
}

/// Puts `elem` first in `buf` if `buf` is empty and `capacity`, the number
/// of slots that it has allocated, is not zero. A buffer that holds anything
/// refuses, however many slots are free: its elements would have to shift.
pub fn vec_push_front_within<T>(buf: &mut Vec<T>, capacity: usize, elem: T) -> (out: Element<T>)
    ensures
        (out, final(buf)@) == guarded_push_front_contiguous(old(buf)@, capacity as nat, elem),
        old(buf)@.len() > 0 || capacity == old(buf)@.len() ==> {
            &&& out == Element::NotAdded(elem)
            &&& *final(buf) == *old(buf)
        },
        old(buf)@.len() == 0 && capacity > 0 ==> {
            &&& out is Added
            &&& final(buf)@ == seq![elem]
        },
{
    if capacity == buf.len() || buf.len() > 0 {
        Element::NotAdded(elem)
    } else {
        buf.push(elem);
        assert(buf@ =~= seq![elem]);
        Element::Added
    }
}

impl<T> TryPush<T> for Vec<T> {
    open spec fn contents(&self) -> Seq<T> {
        self@
    }

    /// Reads the vector's capacity and appends `elem` if a slot is free.
    ///
    /// What the capacity is at the time of the call is not known to the
    /// caller's proof, so the call is promised to end as
    /// [`vec_push_within`] does for some capacity not below the length.
    fn try_push(&mut self, elem: T) -> (out: Element<T>)
        ensures
            exists|capacity: nat|
                capacity >= old(self)@.len() && (out, final(self)@) == #[trigger] guarded_push(
                    old(self)@,
                    capacity,
                    elem,
                ),
    {
        let capacity = vec_capacity(self);
        vec_push_within(self, capacity, elem)
    }

    /// Reads the vector's capacity and puts `elem` first if the vector is
    /// empty and has a slot. A vector that holds anything always refuses,
    /// whatever its capacity.
    ///
    /// What the capacity is at the time of the call is not known to the
    /// caller's proof, so the call is promised to end as
    /// [`vec_push_front_within`] does for some capacity not below the length.
    fn try_push_front(&mut self, elem: T) -> (out: Element<T>)
        ensures
            old(self)@.len() > 0 ==> out == Element::NotAdded(elem),
            out is Added ==> final(self)@ == seq![elem],
            exists|capacity: nat|
                capacity >= old(self)@.len() && (out, final(self)@)
                    == #[trigger] guarded_push_front_contiguous(old(self)@, capacity, elem),
    {
        let capacity = vec_capacity(self);
        vec_push_front_within(self, capacity, elem)
    }
}

} // verus!
