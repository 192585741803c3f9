//! Generic point-like containers: one with a single element type and one
//! with two, each no more than a pair of fields with accessors.

use vstd::prelude::*;

verus! {

/// A pair of values of one shared type.
pub struct Point<T> {
    pub _x: T,
    pub _y: T,
}

impl<T> Point<T> {
    /// A borrow of the first coordinate.
    pub fn x(&self) -> (r: &T)
        ensures
            *r == self._x,
    {
        &self._x
    }
}

/// A pair of values whose two types may differ.
pub struct Point2<T, U> {
    pub _x: T,
    pub _y: U,
}

} // verus!
