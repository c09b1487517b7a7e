//! Small generic helpers: the largest item of a slice, a point with one
//! coordinate type, and the longer of two strings.
use vstd::prelude::*;
use vstd::laws_cmp::obeys_partial_cmp_spec_properties;
use vstd::std_specs::cmp::PartialOrdSpec;
use core::cmp::Ordering;

verus! {

/// Whether `a` compares greater than `b`.
pub open spec fn greater<T: PartialOrd>(a: T, b: T) -> bool {
    a.partial_cmp_spec(&b) == Some(Ordering::Greater)
}

/// The largest item of `list`: one of its items that no other item of
/// `list` compares greater than.
pub fn largest<T: PartialOrd + Copy>(list: &[T]) -> (r: T)
    requires
        list@.len() > 0,
        T::obeys_partial_cmp_spec(),
        obeys_partial_cmp_spec_properties::<T>(),
    ensures
        list@.contains(r),
        forall|i: int| 0 <= i < list@.len() ==> list@[i] == r || !greater(#[trigger] list@[i], r),
{
    let mut largest = list[0];
    let ghost mut at: int = 0;
    let mut i: usize = 1;
    while i < list.len()
        invariant
            1 <= i <= list@.len(),
            0 <= at < i,
            list@[at] == largest,
            T::obeys_partial_cmp_spec(),
            obeys_partial_cmp_spec_properties::<T>(),
            forall|j: int|
                0 <= j < i ==> list@[j] == largest || !greater(#[trigger] list@[j], largest),
        decreases list@.len() - i,
    {
        let item = list[i];
        if item > largest {
            proof {
                reveal(obeys_partial_cmp_spec_properties);
                assert forall|j: int| 0 <= j < i implies list@[j] == item || !greater(
                    #[trigger] list@[j],
                    item,
                ) by {
                    if greater(list@[j], item) && list@[j] != largest {
                        assert(greater(list@[j], largest));
                    }
                }
                at = i as int;
            }
            largest = item;
        }
        i += 1;
    }
    largest
}

/// A point whose two coordinates have the same type.
pub struct Point<T> {
    pub x: T,
    pub y: T,
}

impl<T> Point<T> {
    /// The first coordinate.
    pub fn x(&self) -> (r: &T)
        ensures
            *r == self.x,
    {
        &self.x
    }
}

/// The longer of two strings by length in bytes; `y` when they are as long.
pub fn longest<'a>(x: &'a str, y: &'a str) -> (r: &'a str)
    ensures
        r == (if x.len() > y.len() { x } else { y }),
{
    if x.len() > y.len() {
        x
    } else {
        y
    }
}

} // verus!
