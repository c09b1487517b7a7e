//! An axis-aligned rectangle given by its side lengths.
use vstd::prelude::*;

verus! {

#[derive(Clone, Copy, Debug)]
pub struct Rectangle {
    pub width: u32,
    pub height: u32,
}

impl Rectangle {
    /// The area, `width * height`; it must fit in a `u32`.
    pub fn area(&self) -> (r: u32)
        requires
            self.width * self.height <= u32::MAX,
        ensures
            r == self.width * self.height,
    {
        self.width * self.height
    }
}

} // verus!
