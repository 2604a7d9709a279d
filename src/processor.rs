use crate::hold::{rate_reduced, sample_and_hold};
use crate::noise::{noise_hash, noise_hash_spec};
use crate::params::{RAND_MAX, RAND_RATE_MAX, RATE_MAX, RATE_MIN};
use crate::state::HoldState;
use rand::rngs::StdRng;
use rand::{Rng, SeedableRng};
use vstd::prelude::*;

verus! {

/// The seeded generator of rand, carried as an opaque value.
#[verifier::external_type_specification]
#[verifier::external_body]
pub struct ExStdRng(rand::rngs::StdRng);

/// Relies on rand's `SeedableRng::seed_from_u64` for `StdRng`: a generator
/// whose stream of draws is fixed by the seed.
#[verifier::external_body]
fn seeded_rng(seed: u64) -> (r: StdRng) {
    StdRng::seed_from_u64(seed)
}

/// Relies on rand's `Rng::gen_range` over the half-open range `0..n`: it
/// panics on an empty range and otherwise returns a value inside the range.
#[verifier::external_body]
fn draw_below(rng: &mut StdRng, n: usize) -> (r: usize)
    requires
        0 < n,
    ensures
        r < n,
{
    rng.gen_range(0..n)
}

/// One instance of the effect: the block-to-block hold state and the seeded
/// random source that draws jitter offsets and noise seeds.
pub struct Crrshrr {
    state: HoldState,
    rng: StdRng,
}

/// An instance is viewed as its hold state; the random source is opaque.
impl View for Crrshrr {
    type V = HoldState;

    closed spec fn view(&self) -> HoldState {
        self.state
    }
}

impl Crrshrr {
    /// The hold state keeps its invariant.
    pub open spec fn wf(&self) -> bool {
        self@.wf()
    }

    /// The current hold state.
    pub fn state(&self) -> (r: HoldState)
        ensures
            r == self@,
    {
        self.state
    }

    /// A fresh instance whose random draws are fixed by `seed`.
    pub fn new(seed: u64) -> (r: Crrshrr)
        ensures
            r@ == (HoldState { counter: 0, offset: 0 }),
            r.wf(),
    {
        Crrshrr { state: HoldState::new(), rng: seeded_rng(seed) }
    }

    /// Advances the hold state once at the start of a block. A redraw picks the
    /// new offset from `[0, rand)`, and takes zero without drawing when `rand`
    /// is zero.
    pub fn begin_block(&mut self, rand_rate: i32, rand: i32)
        requires
            old(self).wf(),
            0 <= rand <= RAND_MAX,
            0 <= rand_rate <= RAND_RATE_MAX,
        ensures
            final(self).wf(),
            exists|d: usize|
                (old(self)@.redraw_due_spec(rand_rate) && rand > 0 ==> d < rand)
                    && final(self)@ == #[trigger] old(self)@.next(rand_rate, rand, d),
            old(self)@.redraw_due_spec(rand_rate) ==> final(self)@.counter == 0,
            !old(self)@.redraw_due_spec(rand_rate) ==> final(self)@ == (HoldState {
                counter: (old(self)@.counter + 1) as i32,
                offset: old(self)@.offset,
            }),
            old(self)@.redraw_due_spec(rand_rate) && rand > 0 ==> final(self)@.offset
                < rand,
            old(self)@.redraw_due_spec(rand_rate) && rand == 0 ==> final(self)@.offset
                == 0,
            rand == 0 && old(self)@.offset == 0 ==> final(self)@.offset == 0,
    {
        let draw: usize = if self.state.redraw_due(rand_rate) && rand > 0 {
            draw_below(&mut self.rng, rand as usize)
        } else {
            0
        };
        self.state = self.state.advance(rand_rate, rand, draw);
    }

    /// The noise hash of a seed drawn from `[0, len)`, for one sample of a
    /// channel of `len` samples.
    pub fn next_noise(&mut self, len: usize) -> (r: u32)
        requires
            old(self).wf(),
            0 < len <= i32::MAX,
        ensures
            final(self)@ == old(self)@,
            final(self).wf(),
            exists|seed: i32| 0 <= seed < len && r == #[trigger] noise_hash_spec(seed),
    {
        let seed: usize = draw_below(&mut self.rng, len);
        noise_hash(seed as i32)
    }

    /// The rate reducer on one channel of this block, with this block's jitter
    /// offset.
    pub fn hold_channel<T: Copy>(&self, data: &mut [T], rate: i32)
        requires
            self.wf(),
            RATE_MIN <= rate <= RATE_MAX,
        ensures
            final(data)@ == rate_reduced(old(data)@, rate, self@.offset),
    {
        sample_and_hold(data, rate, self.state.offset);
    }
}

} // verus!
