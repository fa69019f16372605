//! A small deterministic pseudo-random generator (xorshift64*).
//!
//! Every sampling routine takes an explicit generator handle, so renders are
//! reproducible from a seed and tests can inject a fixed stream. Contracts
//! state only the range of each draw: no caller may depend on the
//! distribution, which matches how the sampled values are consumed.

use vstd::prelude::*;

use crate::fx::FX_ONE;

verus! {

pub struct Rng {
    pub state: u64,
}

impl Rng {
    /// The seed is spread over the whole state word, and the state is kept
    /// odd so it can never reach the xorshift fixed point at zero.
    pub fn new(seed: u64) -> (r: Rng) {
        Rng { state: seed.wrapping_mul(0x9E3779B97F4A7C15) | 1 }
    }

    pub fn next_u64(&mut self) -> (r: u64) {
        let mut x = self.state;
        x = x ^ (x >> 12);
        x = x ^ (x << 25);
        x = x ^ (x >> 27);
        self.state = x;
        x.wrapping_mul(0x2545F4914F6CDD1D)
    }

    /// A fixed-point draw in `[0, 1)`.
    pub fn next_unit(&mut self) -> (r: i64)
        ensures
            0 <= r < FX_ONE,
    {
        let x = self.next_u64();
        let bits: u64 = x >> 48;
        proof {
            assert(bits < 65536) by (bit_vector)
                requires
                    bits == x >> 48u64,
            ;
        }
        bits as i64
    }

    /// A fixed-point draw in `[-1, 1)`.
    pub fn next_symmetric(&mut self) -> (r: i64)
        ensures
            -FX_ONE <= r < FX_ONE,
    {
        let u = self.next_unit();
        2 * u - FX_ONE
    }

    /// A uniform index below `n`.
    pub fn next_below(&mut self, n: usize) -> (r: usize)
        requires
            n > 0,
        ensures
            r < n,
    {
        let x = self.next_u64();
        (x % (n as u64)) as usize
    }
}

} // verus!
