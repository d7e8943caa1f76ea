use vstd::prelude::*;
use vstd::laws_cmp::obeys_partial_cmp_spec_properties;
use vstd::std_specs::cmp::{PartialOrdIs, PartialOrdSpec};

verus! {

/// A point whose two coordinates share one type.
pub struct Point<T> {
    pub x: T,
    pub y: T,
}

impl<T> Point<T> {
    /// The first coordinate.
    pub fn x(&self) -> (r: &T)
        ensures
            *r == self.x,
    {
        &self.x
    }

    /// The second coordinate.
    pub fn y(&self) -> (r: &T)
        ensures
            *r == self.y,
    {
        &self.y
    }
}

/// A point whose coordinates may have different types.
pub struct MixedPoint<T, U> {
    pub x: T,
    pub y: U,
}

impl<T, U> MixedPoint<T, U> {
    /// The first coordinate.
    pub fn x(&self) -> (r: &T)
        ensures
            *r == self.x,
    {
        &self.x
    }

    /// The second coordinate.
    pub fn y(&self) -> (r: &U)
        ensures
            *r == self.y,
    {
        &self.y
    }

    /// A point with the first coordinate of `self` and the second of `other`.
    pub fn mixup<V, W>(self, other: MixedPoint<V, W>) -> (r: MixedPoint<T, W>)
        ensures
            r.x == self.x,
            r.y == other.y,
    {
        MixedPoint { x: self.x, y: other.y }
    }
}

/// No element of `list` is greater than `m`.
pub open spec fn is_upper_bound<T: PartialOrd>(list: Seq<T>, m: T) -> bool {
    forall|i: int| 0 <= i < list.len() ==> !(#[trigger] list[i]).is_gt(&m)
}

/// The first element of `list` that no element exceeds, found by a linear scan.
/// Where `>` is a lawful order on `T`, no element is greater than the result.
pub fn largest<T: PartialOrd + Copy>(list: &[T]) -> (r: T)
    requires
        list@.len() > 0,
    ensures
        list@.contains(r),
        T::obeys_partial_cmp_spec() && obeys_partial_cmp_spec_properties::<T>()
            ==> is_upper_bound(list@, r),
{
    let mut largest = list[0];
    let mut k: usize = 1;
    let ghost mut at: int = 0;
    proof {
        if T::obeys_partial_cmp_spec() && obeys_partial_cmp_spec_properties::<T>() {
            reveal(obeys_partial_cmp_spec_properties);
            let x = list@[0];
            assert(x.partial_cmp_spec(&x) == Some(core::cmp::Ordering::Less) <==> x.partial_cmp_spec(
                &x,
            ) == Some(core::cmp::Ordering::Greater));
            assert(list@.take(1)[0] == x);
        }
    }
    while k < list.len()
        invariant
            1 <= k <= list@.len(),
            0 <= at < k,
            list@[at] == largest,
            T::obeys_partial_cmp_spec() && obeys_partial_cmp_spec_properties::<T>()
                ==> is_upper_bound(list@.take(k as int), largest),
        decreases list@.len() - k,
    {
        let i = list[k];
        let ghost prev = largest;
        if i > largest {
            largest = i;
            proof {
                at = k as int;
            }
        }
        proof {
            if T::obeys_partial_cmp_spec() && obeys_partial_cmp_spec_properties::<T>() {
                reveal(obeys_partial_cmp_spec_properties);
                assert forall|j: int| 0 <= j < k + 1 implies !(
                #[trigger] list@.take(k + 1)[j]).is_gt(&largest) by {
                    if j < k {
                        assert(list@.take(k + 1)[j] == list@.take(k as int)[j]);
                    }
                }
            }
        }
        k = k + 1;
    }
    assert(list@.take(k as int) =~= list@);
    assert(list@[at] == largest);
    largest
}

} // verus!
