use vstd::prelude::*;

verus! {

/// Largest value, plus one, that the noise hash can produce (2^31).
pub const NOISE_HASH_BOUND: u32 = 0x8000_0000;

/// The scrambled seed: the seed shifted left by 13 bits (high bits dropped),
/// xor the seed itself.
pub open spec fn scrambled(x: i32) -> i32 {
    (x << 13u32) ^ x
}

/// The noise hash of a seed: two polynomial mixing passes over the scrambled
/// seed, computed without overflow, then masked to the low 31 bits.
pub open spec fn noise_hash_spec(x: i32) -> int {
    let s = scrambled(x) as int;
    let a0 = s * s * 15731 + 789221;
    let a1 = s * a0 + 1376312589;
    ((a1 as i128) & 0x7fff_ffffi128) as int
}

/// Deterministic hash of a seed into `[0, 2^31)`; the audio layer maps it
/// linearly onto roughly `[-1, 1]` to obtain a dither value.
pub fn noise_hash(x: i32) -> (r: u32)
    ensures
        r == noise_hash_spec(x),
        r < NOISE_HASH_BOUND,
{
    let s: i32 = (x << 13u32) ^ x;
    let si: i128 = s as i128;
    assert(-0x8000_0000 <= si <= 0x7fff_ffff);
    assert(0 <= si * si <= 0x4000_0000_0000_0000) by (nonlinear_arith)
        requires -0x8000_0000 <= si <= 0x7fff_ffff;
    let sq: i128 = si * si;
    let a0: i128 = sq * 15731 + 789221;
    assert(-0x8000_0000 * a0 <= si * a0 <= 0x8000_0000 * a0) by (nonlinear_arith)
        requires -0x8000_0000 <= si <= 0x7fff_ffff, a0 >= 0;
    let a1: i128 = si * a0 + 1376312589;
    let m: i128 = a1 & 0x7fff_ffffi128;
    assert(0 <= m <= 0x7fff_ffff) by (bit_vector)
        requires m == a1 & 0x7fff_ffffi128;
    m as u32
}

} // verus!

verus! {

/// The noise hash is a function of its seed: two evaluations on one seed agree.
pub proof fn lemma_noise_hash_deterministic(x: i32, r1: u32, r2: u32)
    requires
        r1 == noise_hash_spec(x),
        r2 == noise_hash_spec(x),
    ensures
        r1 == r2,
{
}

/// Every seed, negative and extreme ones included, hashes into `[0, 2^31)`,
/// so the dither value `1 - h / 2^30` lies in `(-1, 1]`.
pub proof fn lemma_noise_hash_bounded(x: i32)
    ensures
        0 <= noise_hash_spec(x) < NOISE_HASH_BOUND,
        -0x4000_0000 < 0x4000_0000 - noise_hash_spec(x) <= 0x4000_0000,
{
    let a1 = {
        let s = scrambled(x) as int;
        s * (s * s * 15731 + 789221) + 1376312589
    } as i128;
    assert(0 <= a1 & 0x7fff_ffffi128 <= 0x7fff_ffff) by (bit_vector);
}

} // verus!
