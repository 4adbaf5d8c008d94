//! Small numeric helper traits implemented by callers for their value
//! types.

use vstd::prelude::*;

verus! {

/// Computes the enclosing `[min, max]` interval of a slice of values.
pub trait Extend<T> {
    /// The smallest and largest value of `vec`, in that order.
    fn extend(vec: &[T]) -> [T; 2];
}

/// Approximate equality, within a type-specific tolerance.
pub trait InDelta<T> {
    /// True when `self` and `other` differ by less than the tolerance.
    fn in_delta(&self, other: T) -> bool;
}

} // verus!
