use vstd::prelude::*;

verus! {

/// An axis-aligned rectangle given by its side lengths.
#[derive(Debug, Clone, Copy, PartialEq, Eq, Structural)]
pub struct Rectangle {
    pub width: u32,
    pub height: u32,
}

impl Rectangle {
    /// The area as a mathematical integer.
    pub open spec fn area_spec(self) -> int {
        self.width * self.height
    }

    /// Width times height; the product must fit in a `u32`.
    pub fn area(&self) -> (r: u32)
        requires
            self.area_spec() <= u32::MAX,
        ensures
            r == self.area_spec(),
    {
        self.width * self.height
    }

    /// Whether `other` fits strictly inside `self` on both sides.
    pub fn can_hold(&self, other: &Rectangle) -> (r: bool)
        ensures
            r == (self.width > other.width && self.height > other.height),
    {
        self.width > other.width && self.height > other.height
    }

    /// A square with both sides equal to `size`.
    pub fn square(size: u32) -> (r: Rectangle)
        ensures
            r.width == size,
            r.height == size,
    {
        Rectangle { width: size, height: size }
    }
}

/// The area of `r`, as a free function.
pub fn area(r: &Rectangle) -> (a: u32)
    requires
        r.area_spec() <= u32::MAX,
    ensures
        a == r.area_spec(),
{
    r.width * r.height
}

} // verus!
