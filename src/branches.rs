use vstd::prelude::*;

verus! {

/// The first of 4, 3 and 2 that divides `n`, if any.
pub open spec fn first_divisor_spec(n: i32) -> Option<i32> {
    if n % 4 == 0 {
        Some(4)
    } else if n % 3 == 0 {
        Some(3)
    } else if n % 2 == 0 {
        Some(2)
    } else {
        None
    }
}

/// Classifies `n` by trying 4, then 3, then 2 as divisors.
pub fn first_divisor(n: i32) -> (r: Option<i32>)
    ensures
        r == first_divisor_spec(n),
{
    if n % 4 == 0 {
        Some(4)
    } else if n % 3 == 0 {
        Some(3)
    } else if n % 2 == 0 {
        Some(2)
    } else {
        None
    }
}

/// The numbers from `from` down to 1.
pub fn countdown(from: u32) -> (r: Vec<u32>)
    ensures
        r@.len() == from,
        forall|i: int| 0 <= i < from ==> #[trigger] r@[i] == from - i,
{
    let mut r: Vec<u32> = Vec::new();
    let mut number: u32 = from;
    while number != 0
        invariant
            number <= from,
            r@.len() == from - number,
            forall|i: int| 0 <= i < r@.len() ==> #[trigger] r@[i] == from - i,
        decreases number,
    {
        r.push(number);
        number = number - 1;
    }
    r
}

} // verus!
