//! When the publishers of a bench start.

use vstd::prelude::*;

verus! {

/// Microseconds over which the starts of publishers are spread: one period.
pub const SPREAD_US: u64 = 330000;

/// The start of publisher `i` of `count`, in microseconds.
pub open spec fn start_of(i: int, count: int) -> int {
    i * (SPREAD_US as int / count)
}

/// The starts of `count` publishers, in microseconds from now: evenly spread,
/// so that their blocks do not come all at once.
pub fn publisher_delays(count: usize) -> (delays: Vec<u64>)
    requires
        0 < count,
    ensures
        delays@.len() == count,
        forall|i: int| 0 <= i < count ==> #[trigger] delays@[i] == start_of(i, count as int),
{
    let jitter: u64 = SPREAD_US / count as u64;
    let mut delays: Vec<u64> = Vec::new();
    let mut i: usize = 0;
    while i < count
        invariant
            0 < count,
            i <= count,
            jitter == SPREAD_US as int / count as int,
            delays@.len() == i,
            forall|j: int| 0 <= j < i ==> #[trigger] delays@[j] == start_of(j, count as int),
        decreases count - i,
    {
        proof {
            lemma_starts_within_a_period(i as int, count as int);
        }
        delays.push(i as u64 * jitter);
        i = i + 1;
    }
    delays
}

/// Every publisher starts within one period.
pub proof fn lemma_starts_within_a_period(i: int, count: int)
    requires
        0 <= i < count,
    ensures
        0 <= start_of(i, count) < SPREAD_US,
{
    let jitter = SPREAD_US as int / count;
    vstd::arithmetic::div_mod::lemma_fundamental_div_mod(SPREAD_US as int, count);
    vstd::arithmetic::div_mod::lemma_mod_bound(SPREAD_US as int, count);
    assert(0 <= jitter) by {
        vstd::arithmetic::div_mod::lemma_div_pos_is_pos(SPREAD_US as int, count);
    }
    assert(0 <= i * jitter <= count * jitter && (jitter > 0 ==> i * jitter < count * jitter))
        by (nonlinear_arith)
        requires
            0 <= i < count,
            0 <= jitter,
    ;
    assert(jitter == 0 ==> i * jitter == 0) by (nonlinear_arith);
}

/// Neighbours start equally far apart, and there is time between them as long
/// as there are no more publishers than microseconds.
pub proof fn lemma_starts_are_even(i: int, count: int)
    requires
        0 <= i,
        0 < count,
    ensures
        start_of(i + 1, count) - start_of(i, count) == SPREAD_US as int / count,
        count <= SPREAD_US ==> start_of(i, count) < start_of(i + 1, count),
{
    let jitter = SPREAD_US as int / count;
    assert((i + 1) * jitter - i * jitter == jitter) by (nonlinear_arith);
    if count <= SPREAD_US {
        vstd::arithmetic::div_mod::lemma_div_is_ordered(count, SPREAD_US as int, count);
        vstd::arithmetic::div_mod::lemma_div_by_self(count);
    }
}

} // verus!
