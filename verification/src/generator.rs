//! Seed generation: fixed-length uniformly random inputs used to
//! bootstrap an empty corpus.

use vstd::prelude::*;

use crate::input::Input;
use crate::rng::Rng;
use crate::rng::spec_next;

verus! {

/// The random state after `n` draws.
pub open spec fn spec_gen_state(s: u64, n: nat) -> u64
    decreases n,
{
    if n == 0 {
        s
    } else {
        spec_next(spec_gen_state(s, (n - 1) as nat))
    }
}

/// The `n` bytes generated from state `s`: one draw per byte, low eight
/// bits kept.
pub open spec fn spec_gen(s: u64, n: nat) -> Seq<u8>
    decreases n,
{
    if n == 0 {
        Seq::<u8>::empty()
    } else {
        spec_gen(s, (n - 1) as nat).push((spec_gen_state(s, n) % 256) as u8)
    }
}

/// Produce a fresh input of `len` uniformly random bytes, independent of
/// any existing corpus. Both the bytes and the random state after the
/// call are exact functions of the state before it.
pub fn generate(rng: &mut Rng, len: usize) -> (out: Input)
    ensures
        out@ == spec_gen(old(rng).state, len as nat),
        out@.len() == len,
        final(rng).state == spec_gen_state(old(rng).state, len as nat),
{
    let ghost s0 = rng.state;
    let mut bytes: Vec<u8> = Vec::new();
    let mut i: usize = 0;
    while i < len
        invariant
            i <= len,
            bytes@ == spec_gen(s0, i as nat),
            bytes@.len() == i,
            rng.state == spec_gen_state(s0, i as nat),
        decreases len - i,
    {
        let d = rng.next();
        bytes.push((d % 256) as u8);
        assert(rng.state == spec_gen_state(s0, (i + 1) as nat));
        assert(bytes@ == spec_gen(s0, (i + 1) as nat));
        i = i + 1;
    }
    Input::from_bytes(bytes)
}

} // verus!
