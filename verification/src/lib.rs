//! Insertion that never reallocates and never shifts.
//!
//! [`TryPush`] adds an element to a growable sequence only while the
//! sequence has a free slot for it, and hands the element back otherwise.
//! It is implemented for `Vec` and for `VecDeque`.
pub mod contiguous;
pub mod element;
pub mod guard;
pub mod model;
pub mod ring;

pub use element::Element;
pub use guard::TryPush;
