use vstd::prelude::*;

use std::collections::VecDeque;

verus! {

/// How many brightness samples the moving average covers.
pub const SAMPLES: usize = 150;

/// How far above the moving average a brightness must rise to count as a
/// change of the screen.
pub const THRESHOLD_MARGIN: usize = 150;

/// The sum of a sequence of samples.
pub open spec fn samples_sum(s: Seq<usize>) -> nat
    decreases s.len(),
{
    if s.len() == 0 {
        0
    } else {
        samples_sum(s.drop_last()) + s.last() as nat
    }
}

/// The detection threshold of a window of brightness samples: their integer
/// mean plus a fixed margin.
pub fn calc_threshold(values: &VecDeque<usize>) -> (r: usize)
    requires
        values@.len() > 0,
        samples_sum(values@) / values@.len() + THRESHOLD_MARGIN <= usize::MAX,
        samples_sum(values@) <= usize::MAX,
    ensures
        r == samples_sum(values@) / values@.len() + THRESHOLD_MARGIN,
{
    let mut sum: usize = 0;
    let mut i: usize = 0;
    while i < values.len()
        invariant
            i <= values@.len(),
            sum == samples_sum(values@.subrange(0, i as int)),
            samples_sum(values@) <= usize::MAX,
        decreases values@.len() - i,
    {
        proof {
            assert(values@.subrange(0, i + 1).drop_last() == values@.subrange(0, i as int));
            lemma_samples_sum_prefix(values@, i + 1);
        }
        sum = sum + values[i];
        i += 1;
    }
    assert(values@.subrange(0, values@.len() as int) == values@);
    sum / values.len() + THRESHOLD_MARGIN
}

/// A prefix sums to no more than the whole sequence.
proof fn lemma_samples_sum_prefix(s: Seq<usize>, n: int)
    requires
        0 <= n <= s.len(),
    ensures
        samples_sum(s.subrange(0, n)) <= samples_sum(s),
    decreases s.len() - n,
{
    if n < s.len() {
        lemma_samples_sum_prefix(s, n + 1);
        assert(s.subrange(0, n + 1).drop_last() == s.subrange(0, n));
    } else {
        assert(s.subrange(0, n) == s);
    }
}

/// Appends `value` to a window of samples, first dropping the oldest sample
/// when the window is full.
pub fn append_const_size<T>(vec: &mut VecDeque<T>, value: T)
    ensures
        old(vec)@.len() == SAMPLES ==> final(vec)@ == old(vec)@.drop_first().push(value),
        old(vec)@.len() != SAMPLES ==> final(vec)@ == old(vec)@.push(value),
{
    if vec.len() == SAMPLES {
        vec.pop_front();
    }
    vec.push_back(value);
}

} // verus!
