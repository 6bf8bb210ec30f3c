//! Deterministic pseudo-random generators (xoroshiro128 and splitmix64).
use vstd::prelude::*;
use vstd::wrapping::u64_specs::{wrapping_add, wrapping_mul};

verus! {

/// The fixed, non-zero seed of every `RandGen`.
pub const RANDGEN_SEED0: u64 = 0x193a6754a8a7d469;
pub const RANDGEN_SEED1: u64 = 0x97830e05113ba7bb;

/// `x` rotated left by 55 bits.
pub open spec fn rotl55(x: u64) -> u64 {
    (x << 55u64) | (x >> 9u64)
}

/// `x` rotated left by 36 bits.
pub open spec fn rotl36(x: u64) -> u64 {
    (x << 36u64) | (x >> 28u64)
}

/// The value xoroshiro128 yields from state `(s0, s1)`.
pub open spec fn xoroshiro_output(s: (u64, u64)) -> u64 {
    wrapping_add(s.0, s.1)
}

/// The state xoroshiro128 moves to from state `(s0, s1)`.
pub open spec fn xoroshiro_next(s: (u64, u64)) -> (u64, u64) {
    let t = s.1 ^ s.0;
    (rotl55(s.0) ^ t ^ (t << 14u64), rotl36(t))
}

/// Advances the xoroshiro128 state held in `state` by one step and returns
/// the value of the old state.
pub fn next_xoroshiro128(state: &mut [u64; 2]) -> (r: u64)
    ensures
        r == xoroshiro_output((old(state)@[0], old(state)@[1])),
        (final(state)@[0], final(state)@[1]) == xoroshiro_next((old(state)@[0], old(state)@[1])),
{
    let s0: u64 = state[0];
    let mut s1: u64 = state[1];
    let result: u64 = s0.wrapping_add(s1);

    s1 = s1 ^ s0;
    state[0] = ((s0 << 55u64) | (s0 >> 9u64)) ^ s1 ^ (s1 << 14u64);
    state[1] = (s1 << 36u64) | (s1 >> 28u64);

    result
}

/// A xoroshiro128 generator with a fixed seed.
#[derive(Debug, Copy, Clone, PartialEq, Eq)]
pub struct RandGen {
    r: [u64; 2],
}

impl View for RandGen {
    type V = (u64, u64);

    closed spec fn view(&self) -> (u64, u64) {
        (self.r@[0], self.r@[1])
    }
}

impl RandGen {
    /// A generator in its seeded state.
    pub fn new() -> (g: Self)
        ensures
            g@ == (RANDGEN_SEED0, RANDGEN_SEED1),
    {
        RandGen { r: [RANDGEN_SEED0, RANDGEN_SEED1] }
    }

    /// The next value of the stream.
    pub fn next(&mut self) -> (r: u64)
        ensures
            r == xoroshiro_output(old(self)@),
            final(self)@ == xoroshiro_next(old(self)@),
    {
        next_xoroshiro128(&mut self.r)
    }
}

/// The increment splitmix64 adds to its state at each step.
pub const SPLITMIX_GAMMA: u64 = 0x9E37_79B9_7F4A_7C15;
pub const SPLITMIX_MUL1: u64 = 0xBF58_476D_1CE4_E5B9;
pub const SPLITMIX_MUL2: u64 = 0x94D0_49BB_1331_11EB;

/// The value splitmix64 yields once its state has become `z`.
pub open spec fn splitmix_mix(z: u64) -> u64 {
    let a = wrapping_mul(z ^ (z >> 30u64), SPLITMIX_MUL1);
    let b = wrapping_mul(a ^ (a >> 27u64), SPLITMIX_MUL2);
    b ^ (b >> 31u64)
}

/// The splitmix64 generator; its state is the one public field.
#[derive(Copy, Clone)]
pub struct SplitMix64(pub u64);

impl SplitMix64 {
    pub fn new(seed: u64) -> (g: Self)
        ensures
            g.0 == seed,
    {
        SplitMix64(seed)
    }

    /// A generator seeded with the bits of `seed`.
    pub fn new_from_i64(seed: i64) -> (g: Self)
        ensures
            g.0 == seed as u64,
    {
        Self::new(seed as u64)
    }

    /// Advances the state by the gamma and returns its mixed value.
    pub fn next_u64(&mut self) -> (r: u64)
        ensures
            final(self).0 == wrapping_add(old(self).0, SPLITMIX_GAMMA),
            r == splitmix_mix(final(self).0),
    {
        let mut z: u64 = self.0.wrapping_add(SPLITMIX_GAMMA);
        self.0 = z;
        z = (z ^ (z >> 30u64)).wrapping_mul(SPLITMIX_MUL1);
        z = (z ^ (z >> 27u64)).wrapping_mul(SPLITMIX_MUL2);
        z ^ (z >> 31u64)
    }

    /// `next_u64` with its bits read as a signed integer.
    pub fn next_i64(&mut self) -> (r: i64)
        ensures
            final(self).0 == wrapping_add(old(self).0, SPLITMIX_GAMMA),
            r == splitmix_mix(final(self).0) as i64,
    {
        self.next_u64() as i64
    }
}

} // verus!
