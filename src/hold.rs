use vstd::arithmetic::div_mod::{lemma_fundamental_div_mod, lemma_mod_multiples_basic};
use crate::params::{RAND_MAX, RATE_MAX, RATE_MIN};
use vstd::prelude::*;

verus! {

/// The position whose value sample `i` carries after sample-and-hold with a
/// window of `period` samples: the start of the window that holds `i`.
pub open spec fn held_from(i: int, period: int) -> int {
    i - i % period
}

/// A channel after sample-and-hold: every sample takes the value at the start
/// of its window.
pub open spec fn held<T>(s: Seq<T>, period: int) -> Seq<T> {
    Seq::new(s.len(), |i: int| s[held_from(i, period)])
}

/// The window start lies inside the window and is itself a window start.
pub proof fn lemma_held_from(i: int, period: int)
    requires
        0 <= i,
        period > 0,
    ensures
        0 <= held_from(i, period) <= i,
        i - held_from(i, period) == i % period,
        held_from(i, period) % period == 0,
        held_from(held_from(i, period), period) == held_from(i, period),
{
    lemma_fundamental_div_mod(i, period);
    lemma_mod_multiples_basic(i / period, period);
    assert(i / period >= 0) by (nonlinear_arith)
        requires i >= 0, period > 0;
    assert(i - i % period == (i / period) * period) by (nonlinear_arith)
        requires i == period * (i / period) + i % period;
}

/// Sample-and-hold on one channel with a window of `period` samples.
///
/// Runs in increasing index order and copies `data[i - j]` into `data[i]`,
/// where `j = i % period`, whenever `0 < j < data.len()`. A window start is
/// never overwritten, so the held value is the one at the window start.
pub fn hold_in_place<T: Copy>(data: &mut [T], period: usize)
    requires
        period > 0,
    ensures
        final(data)@ == held(old(data)@, period as int),
        forall|i: int|
            0 <= i < final(data)@.len() && 0 < #[trigger] (i % period as int) ==> final(data)@[i]
                == final(data)@[i - i % period as int],
{
    let len: usize = data.len();
    let ghost orig = data@;
    let mut i: usize = 0;
    while i < len
        invariant
            len == data@.len(),
            orig.len() == len,
            period > 0,
            i <= len,
            forall|k: int| 0 <= k < i ==> #[trigger] data@[k] == orig[held_from(k, period as int)],
            forall|k: int| i <= k < len ==> #[trigger] data@[k] == orig[k],
        decreases len - i,
    {
        let j: usize = i % period;
        proof {
            lemma_held_from(i as int, period as int);
        }
        if j > 0 && j < len {
            let v: T = data[i - j];
            data[i] = v;
        }
        i = i + 1;
    }
    proof {
        assert(data@ =~= held(orig, period as int));
        assert forall|k: int|
            0 <= k < data@.len() && 0 < #[trigger] (k % period as int) implies data@[k] == data@[k
            - k % period as int] by {
            lemma_held_from(k, period as int);
        }
    }
}

} // verus!

verus! {

/// The hold window length for a `rate` control value and a jitter offset.
pub open spec fn window(rate: i32, offset: usize) -> int {
    rate as int + offset as int
}

/// A channel after the rate reducer: unchanged below a rate of two, else held
/// over windows of `rate + offset` samples.
pub open spec fn rate_reduced<T>(s: Seq<T>, rate: i32, offset: usize) -> Seq<T> {
    if rate < 2 {
        s
    } else {
        held(s, window(rate, offset))
    }
}

/// The rate reducer on one channel: sample-and-hold over windows of
/// `rate + offset` samples when `rate` is at least two, nothing otherwise.
pub fn sample_and_hold<T: Copy>(data: &mut [T], rate: i32, offset: usize)
    requires
        RATE_MIN <= rate <= RATE_MAX,
        offset < RAND_MAX,
    ensures
        final(data)@ == rate_reduced(old(data)@, rate, offset),
        rate < 2 ==> final(data)@ == old(data)@,
        rate >= 2 ==> forall|i: int|
            0 <= i < final(data)@.len() && 0 < #[trigger] (i % window(rate, offset))
                ==> final(data)@[i] == final(data)@[i - i % window(rate, offset)],
{
    if rate > 1 {
        hold_in_place(data, rate as usize + offset);
    }
}

} // verus!

verus! {

/// Below a rate of two the rate reducer hands the channel back unchanged,
/// whatever jitter offset the block state holds, so repeated blocks with the
/// same input give the same output.
pub proof fn lemma_low_rate_ignores_offset<T>(s: Seq<T>, rate: i32, o1: usize, o2: usize)
    requires
        rate < 2,
    ensures
        rate_reduced(s, rate, o1) == s,
        rate_reduced(s, rate, o1) == rate_reduced(s, rate, o2),
{
}

} // verus!
