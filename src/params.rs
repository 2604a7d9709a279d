use vstd::prelude::*;

verus! {

/// Smallest value of the `rate` control (no hold).
pub const RATE_MIN: i32 = 1;

/// Largest value of the `rate` control.
pub const RATE_MAX: i32 = 50;

/// Largest value of the `rand` control, which bounds the jitter offset.
pub const RAND_MAX: i32 = 100;

/// Largest value of the `rand rate` control, the number of blocks between
/// jitter redraws.
pub const RAND_RATE_MAX: i32 = 64;

} // verus!
