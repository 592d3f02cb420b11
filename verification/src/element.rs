use vstd::prelude::*;

verus! {

/// What became of an element handed to a guarded insertion.
#[derive(Eq, PartialEq, Debug)]
pub enum Element<T> {
    /// The container took the element and now owns it.
    Added,
    /// The container refused and is as it was; the element comes back.
    NotAdded(T),
}

} // verus!
