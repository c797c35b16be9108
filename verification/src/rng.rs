//! Deterministic pseudo-random source for the engine.
//!
//! Every randomized decision (mutation choice, scheduling, seed generation)
//! draws from this source, so a campaign started from a fixed seed replays
//! byte for byte. The generator is a 64-bit xorshift.

use vstd::prelude::*;

verus! {

/// One xorshift step: the successor of a generator state.
pub open spec fn spec_next(s: u64) -> u64 {
    let a = s ^ (s << 13);
    let b = a ^ (a >> 7);
    b ^ (b << 17)
}

/// The state a fresh generator starts from for a given seed.
///
/// A zero state is the fixed point of the xorshift step, so seed 0 is
/// mapped to an arbitrary nonzero constant.
pub open spec fn spec_seed_state(seed: u64) -> u64 {
    if seed == 0 {
        0x9E3779B97F4A7C15
    } else {
        seed
    }
}

/// The injectable random source: a single 64-bit xorshift state.
pub struct Rng {
    pub state: u64,
}

impl Rng {
    /// Create a generator from a seed.
    pub fn new(seed: u64) -> (r: Rng)
        ensures
            r.state == spec_seed_state(seed),
    {
        if seed == 0 {
            Rng { state: 0x9E3779B97F4A7C15 }
        } else {
            Rng { state: seed }
        }
    }

    /// Draw the next 64-bit value; the result equals the new state.
    pub fn next(&mut self) -> (r: u64)
        ensures
            final(self).state == spec_next(old(self).state),
            r == spec_next(old(self).state),
    {
        let s = self.state;
        let a = s ^ (s << 13);
        let b = a ^ (a >> 7);
        let c = b ^ (b << 17);
        self.state = c;
        c
    }

    /// Draw a value uniformly below `n`.
    pub fn below(&mut self, n: u64) -> (r: u64)
        requires
            n > 0,
        ensures
            final(self).state == spec_next(old(self).state),
            r == spec_next(old(self).state) % n,
            r < n,
    {
        let d = self.next();
        d % n
    }
}

} // verus!
