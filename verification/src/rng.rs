//! The deterministic pseudo-random stream used to scatter the initial
//! bodies: the xorshift128+ step, small enough to verify directly.
//!
//! Its output is pinned exactly by `spec_next_state` and `spec_output`, so
//! the same seed provably yields the same stream on every run; a test
//! cross-checks the stream against the `random` crate's default source.

use vstd::prelude::*;

verus! {

/// A seeded xorshift128+ generator; two words of state, stepped in place.
#[derive(Clone, Copy, PartialEq, Eq, Structural, Debug)]
pub struct ScatterGen {
    pub s0: u64,
    pub s1: u64,
}

/// The generator state after one step.
pub open spec fn spec_next_state(s0: u64, s1: u64) -> (u64, u64) {
    let a = s0 ^ (s0 << 23);
    let b = a ^ (a >> 17);
    let c = b ^ (s1 ^ (s1 >> 26));
    (s1, c)
}

/// The value one step emits: the stepped word plus the other word, mod 2^64.
pub open spec fn spec_output(s0: u64, s1: u64) -> u64 {
    spec_next_state(s0, s1).1.wrapping_add(s1)
}

impl ScatterGen {
    /// A generator holding exactly the two seed words.
    pub fn seed(a: u64, b: u64) -> (g: ScatterGen)
        ensures
            g == (ScatterGen { s0: a, s1: b }),
    {
        ScatterGen { s0: a, s1: b }
    }

    /// Step the state once and emit one value, exactly as the specs say.
    pub fn next_value(&mut self) -> (r: u64)
        ensures
            (final(self).s0, final(self).s1) == spec_next_state(old(self).s0, old(self).s1),
            r == spec_output(old(self).s0, old(self).s1),
    {
        let mut x = self.s0;
        let y = self.s1;
        self.s0 = y;
        x = x ^ (x << 23);
        x = x ^ (x >> 17);
        x = x ^ (y ^ (y >> 26));
        self.s1 = x;
        x.wrapping_add(y)
    }
}

} // verus!
