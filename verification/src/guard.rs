use crate::element::Element;
use vstd::prelude::*;

verus! {

/// A growable sequence that can take an element at either end on the
/// condition that nothing is reallocated and nothing already held is moved.
///
/// Whatever the implementor's storage, a call is all or nothing: either the
/// element joins the sequence at the end asked for, or the implementor is
/// left exactly as it was and the caller gets the element back.
pub trait TryPush<T>: Sized {
    /// The elements held, first to last.
    spec fn contents(&self) -> Seq<T>;

    /// Attempts to add `elem` as the last element. If that would reallocate
    /// or shift elements, `elem` is returned in `Element::NotAdded`.
    /// Otherwise the result is `Element::Added`.
    fn try_push(&mut self, elem: T) -> (out: Element<T>)
        ensures
            out is Added ==> final(self).contents() == old(self).contents().push(elem),
            out matches Element::NotAdded(back) ==> back == elem && *final(self) == *old(self),
    ;

    /// Attempts to add `elem` as the first element. If that would reallocate
    /// or shift elements, `elem` is returned in `Element::NotAdded`.
    /// Otherwise the result is `Element::Added`.
    fn try_push_front(&mut self, elem: T) -> (out: Element<T>)
        ensures
            out is Added ==> final(self).contents() == seq![elem] + old(self).contents(),
            out matches Element::NotAdded(back) ==> back == elem && *final(self) == *old(self),
    ;
}

} // verus!
