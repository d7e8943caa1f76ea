use vstd::prelude::*;

verus! {

/// Adds `k` to every element of `v`; every sum must fit in an `i32`.
pub fn add_to_each(v: &mut Vec<i32>, k: i32)
    requires
        forall|i: int|
            0 <= i < old(v)@.len() ==> i32::MIN <= #[trigger] old(v)@[i] + k <= i32::MAX,
    ensures
        final(v)@.len() == old(v)@.len(),
        forall|i: int| 0 <= i < old(v)@.len() ==> #[trigger] final(v)@[i] == old(v)@[i] + k,
{
    let n = v.len();
    let mut i: usize = 0;
    while i < n
        invariant
            n == old(v)@.len(),
            v@.len() == n,
            i <= n,
            forall|j: int| 0 <= j < n ==> i32::MIN <= #[trigger] old(v)@[j] + k <= i32::MAX,
            forall|j: int| 0 <= j < i ==> #[trigger] v@[j] == old(v)@[j] + k,
            forall|j: int| i <= j < n ==> #[trigger] v@[j] == old(v)@[j],
        decreases n - i,
    {
        let x = v[i] + k;
        v.set(i, x);
        i = i + 1;
    }
}

/// `a`, `b` and `c` joined by dashes.
pub fn join_with_dashes(a: &str, b: &str, c: &str) -> (r: String)
    ensures
        r@ == a@ + "-"@ + b@ + "-"@ + c@,
{
    let mut r = a.to_owned();
    r.append("-");
    r.append(b);
    r.append("-");
    r.append(c);
    r
}

} // verus!
