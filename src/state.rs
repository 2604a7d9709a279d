use crate::params::{RAND_MAX, RAND_RATE_MAX};
use vstd::prelude::*;

verus! {

/// The state that the rate reducer carries from one block to the next: a
/// countdown of blocks until the jitter offset is redrawn, and that offset.
#[derive(Clone, Copy, Debug, PartialEq, Eq, Structural)]
pub struct HoldState {
    pub counter: i32,
    pub offset: usize,
}

impl HoldState {
    /// The counter never passes one beyond the largest `rand rate`, and the
    /// offset stays below the largest `rand`.
    pub open spec fn wf(self) -> bool {
        &&& 0 <= self.counter <= RAND_RATE_MAX + 1
        &&& self.offset < RAND_MAX
    }

    /// A redraw is due once the counter has passed `rand_rate`.
    pub open spec fn redraw_due_spec(self, rand_rate: i32) -> bool {
        self.counter > rand_rate
    }

    /// The state after one block, where `draw` is the value drawn from
    /// `[0, rand)` when a redraw is due and `rand` is positive.
    pub open spec fn next(self, rand_rate: i32, rand: i32, draw: usize) -> HoldState {
        if self.redraw_due_spec(rand_rate) {
            HoldState { counter: 0, offset: if rand > 0 { draw } else { 0 } }
        } else {
            HoldState { counter: (self.counter + 1) as i32, offset: self.offset }
        }
    }

    /// The state of a fresh effect instance.
    pub fn new() -> (r: HoldState)
        ensures
            r == (HoldState { counter: 0, offset: 0 }),
            r.wf(),
    {
        HoldState { counter: 0, offset: 0 }
    }

    /// Whether this block redraws the jitter offset.
    pub fn redraw_due(&self, rand_rate: i32) -> (r: bool)
        ensures
            r == self.redraw_due_spec(rand_rate),
    {
        self.counter > rand_rate
    }

    /// Advances the state by one block. When a redraw is due the counter
    /// restarts at zero and the offset becomes `draw`, or zero when `rand` is
    /// zero; otherwise the counter goes up by one.
    pub fn advance(&self, rand_rate: i32, rand: i32, draw: usize) -> (r: HoldState)
        requires
            self.wf(),
            0 <= rand <= RAND_MAX,
            0 <= rand_rate <= RAND_RATE_MAX,
            self.redraw_due_spec(rand_rate) && rand > 0 ==> draw < rand,
        ensures
            r == self.next(rand_rate, rand, draw),
            r.wf(),
            self.redraw_due_spec(rand_rate) ==> r.offset < rand || (rand == 0 && r.offset == 0),
            rand == 0 && self.redraw_due_spec(rand_rate) ==> r.offset == 0,
            rand == 0 && self.offset == 0 ==> r.offset == 0,
    {
        if self.counter > rand_rate {
            let offset: usize = if rand > 0 {
                draw
            } else {
                0
            };
            HoldState { counter: 0, offset }
        } else {
            HoldState { counter: self.counter + 1, offset: self.offset }
        }
    }
}

} // verus!
