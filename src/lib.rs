//! Verified core of a bit-crushing audio effect: the integer noise hash that
//! seeds dither, the sample-and-hold rate reducer, and the per-block state that
//! re-randomises the hold window.

pub mod hold;
pub mod noise;
pub mod params;
pub mod processor;
pub mod state;
