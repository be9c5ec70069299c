use vstd::prelude::*;

verus! {

/// The sum of `counts`.
pub open spec fn total_of(counts: Seq<u64>) -> nat
    decreases counts.len(),
{
    if counts.len() == 0 {
        0
    } else {
        total_of(counts.drop_last()) + counts.last() as nat
    }
}

/// The number of rows that a command affected: the sum of the counts that
/// its statements reported, or `None` where the sum is more than a `u64`
/// holds.
pub fn affected_rows(counts: &[u64]) -> (total: Option<u64>)
    ensures
        total_of(counts@) <= u64::MAX ==> total == Some(total_of(counts@) as u64),
        total_of(counts@) > u64::MAX ==> total is None,
{
    let mut total: u64 = 0;
    let mut i: usize = 0;
    while i < counts.len()
        invariant
            i <= counts.len(),
            total == total_of(counts@.take(i as int)),
        decreases counts.len() - i,
    {
        assert(counts@.take(i + 1).drop_last() =~= counts@.take(i as int));
        match total.checked_add(counts[i]) {
            Some(sum) => {
                total = sum;
            },
            None => {
                proof {
                    lemma_total_grows(counts@, (i + 1) as nat);
                }
                return None;
            },
        }
        i += 1;
    }
    assert(counts@.take(i as int) =~= counts@);
    Some(total)
}

/// The sum of a part of the counts is at most the sum of them all.
pub proof fn lemma_total_grows(counts: Seq<u64>, part: nat)
    requires
        part <= counts.len(),
    ensures
        total_of(counts.take(part as int)) <= total_of(counts),
    decreases counts.len(),
{
    if part < counts.len() {
        lemma_total_grows(counts.drop_last(), part);
        assert(counts.drop_last().take(part as int) =~= counts.take(part as int));
    } else {
        assert(counts.take(part as int) =~= counts);
    }
}

} // verus!
