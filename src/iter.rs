//! Two ways to describe a source that hands out values one at a time.
use vstd::prelude::*;

verus! {

/// A source whose implementor fixes the type of the values it yields.
pub trait Iterator {
    type Item;

    /// The next value, or `None` when there are no more.
    fn next(&mut self) -> Option<Self::Item>;
}

/// A source generic over the type of the values it yields, so one type may
/// implement it for several value types.
pub trait Iterator2<T> {
    /// The next value, or `None` when there are no more.
    fn next(&mut self) -> Option<T>;
}

} // verus!
