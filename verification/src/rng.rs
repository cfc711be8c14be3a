//! A small deterministic pseudo-random generator for weighted selection.
//!
//! Selection only needs a draw that is cheap and well spread; the generator
//! is fully verified, and the selection contract is exact in the draw, so
//! the quality of the stream is a tuning matter, not a correctness one.

use vstd::prelude::*;

verus! {

/// SplitMix-style 64-bit generator state.
pub struct SelectionRng {
    pub state: u64,
}

impl SelectionRng {
    /// A generator starting from the given seed.
    pub fn new(seed: u64) -> (r: Self)
        ensures
            r.state == seed,
    {
        SelectionRng { state: seed }
    }

    /// The next 64-bit value of the stream.
    pub fn next_u64(&mut self) -> u64 {
        self.state = self.state.wrapping_add(0x9E3779B97F4A7C15u64);
        let mut z: u64 = self.state;
        z = (z ^ (z >> 30u64)).wrapping_mul(0xBF58476D1CE4E5B9u64);
        z = (z ^ (z >> 27u64)).wrapping_mul(0x94D049BB133111EBu64);
        z ^ (z >> 31u64)
    }

    /// A draw below the given bound.
    pub fn next_below(&mut self, bound: u128) -> (r: u128)
        requires
            bound > 0,
        ensures
            r < bound,
    {
        let hi = self.next_u64();
        let lo = self.next_u64();
        let wide: u128 = ((hi as u128) << 64u128) | (lo as u128);
        wide % bound
    }
}

} // verus!
