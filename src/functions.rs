use vstd::prelude::*;

verus! {

/// The value of a block whose last expression is `x + 1` with `x` bound to 5.
pub fn expression_example() -> (r: i32)
    ensures
        r == 6,
{
    let x: i32 = 5;
    x + 1
}

} // verus!
