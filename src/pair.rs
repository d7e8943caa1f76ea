use vstd::prelude::*;
use vstd::std_specs::cmp::{PartialOrdIs, PartialOrdSpec};
use core::cmp::Ordering;

verus! {

/// Two values of one type.
pub struct Pair<T> {
    pub x: T,
    pub y: T,
}

impl<T> Pair<T> {
    pub fn new(x: T, y: T) -> (r: Self)
        ensures
            r.x == x,
            r.y == y,
    {
        Self { x, y }
    }
}

impl<T: PartialOrd> Pair<T> {
    /// How `x` stands to `y`: `Greater` when `x > y`, else `Less` when `x < y`,
    /// else `Equal`.
    pub fn compare(&self) -> (r: Ordering)
        ensures
            T::obeys_partial_cmp_spec() ==> r == if self.x.is_gt(&self.y) {
                Ordering::Greater
            } else if self.x.is_lt(&self.y) {
                Ordering::Less
            } else {
                Ordering::Equal
            },
    {
        if self.x > self.y {
            Ordering::Greater
        } else if self.x < self.y {
            Ordering::Less
        } else {
            Ordering::Equal
        }
    }
}

} // verus!
