use vstd::prelude::*;

verus! {

/// The period numbers of a schedule of `n` periods, counted from one.
pub fn period_numbers(n: usize) -> (r: Vec<i64>)
    requires
        n <= i64::MAX,
    ensures
        r@.len() == n,
        forall|i: int| 0 <= i < n ==> #[trigger] r@[i] == i + 1,
{
    let mut r: Vec<i64> = Vec::with_capacity(n);
    let mut i: usize = 0;
    while i < n
        invariant
            i <= n,
            n <= i64::MAX,
            r@.len() == i,
            forall|j: int| 0 <= j < i ==> #[trigger] r@[j] == j + 1,
        decreases n - i,
    {
        r.push((i + 1) as i64);
        i = i + 1;
    }
    r
}

/// How many rows a scan of a schedule of `periods` rows emits, given whether
/// it has already emitted its one batch: all of them the first time, none after.
pub fn batch_rows(already_emitted: bool, periods: usize) -> (r: usize)
    ensures
        r == if already_emitted { 0 } else { periods },
{
    if already_emitted {
        0
    } else {
        periods
    }
}

} // verus!
