//! The insertion rules as functions on sequences.
//!
//! Each function takes what a container holds, the number of slots it has
//! allocated and the element on offer, and gives the outcome together with
//! what the container holds afterwards.
use crate::element::Element;
use vstd::prelude::*;

verus! {

/// Insertion at the back, for either storage: refused exactly when every
/// allocated slot is taken.
pub open spec fn guarded_push<T>(items: Seq<T>, capacity: nat, elem: T) -> (Element<T>, Seq<T>) {
    if capacity == items.len() {
        (Element::NotAdded(elem), items)
    } else {
        (Element::Added, items.push(elem))
    }
}

/// Insertion at the front of contiguous storage: accepted only into an empty
/// buffer that has a slot, since any element already held would have to move.
pub open spec fn guarded_push_front_contiguous<T>(items: Seq<T>, capacity: nat, elem: T) -> (
    Element<T>,
    Seq<T>,
) {
    if capacity == items.len() || items.len() > 0 {
        (Element::NotAdded(elem), items)
    } else {
        (Element::Added, seq![elem])
    }
}

/// Insertion at the front of a ring: refused exactly when every allocated
/// slot is taken.
pub open spec fn guarded_push_front_ring<T>(items: Seq<T>, capacity: nat, elem: T) -> (
    Element<T>,
    Seq<T>,
) {
    if capacity == items.len() {
        (Element::NotAdded(elem), items)
    } else {
        (Element::Added, seq![elem] + items)
    }
}

/// A full container refuses a push at the back as often as it is asked:
/// the first refusal returns the element and leaves the contents alone, so
/// the second call meets the same container and ends the same way.
pub proof fn lemma_push_refusal_repeats<T>(items: Seq<T>, capacity: nat, elem: T)
    requires
        capacity == items.len(),
    ensures
        guarded_push(items, capacity, elem) == (Element::NotAdded(elem), items),
        guarded_push(guarded_push(items, capacity, elem).1, capacity, elem) == (
            Element::NotAdded(elem),
            items,
        ),
{
}

/// A full contiguous buffer refuses a push at the front as often as it is
/// asked, and is the same after each refusal.
pub proof fn lemma_push_front_contiguous_refusal_repeats<T>(items: Seq<T>, capacity: nat, elem: T)
    requires
        capacity == items.len(),
    ensures
        guarded_push_front_contiguous(items, capacity, elem) == (Element::NotAdded(elem), items),
        guarded_push_front_contiguous(
            guarded_push_front_contiguous(items, capacity, elem).1,
            capacity,
            elem,
        ) == (Element::NotAdded(elem), items),
{
}

/// A full ring refuses a push at the front as often as it is asked, and is
/// the same after each refusal.
pub proof fn lemma_push_front_ring_refusal_repeats<T>(items: Seq<T>, capacity: nat, elem: T)
    requires
        capacity == items.len(),
    ensures
        guarded_push_front_ring(items, capacity, elem) == (Element::NotAdded(elem), items),
        guarded_push_front_ring(guarded_push_front_ring(items, capacity, elem).1, capacity, elem)
            == (Element::NotAdded(elem), items),
{
}

} // verus!
