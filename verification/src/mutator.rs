//! Havoc-style mutation: a randomized sequence of small byte-level edits.
//!
//! One call picks a random operator count (at least one) and applies that
//! many randomly chosen operators to a copy of the parent. The parent is
//! never touched: the child is a fresh `Input`, fully determined by the
//! random source's state and the parent bytes, so a campaign replays
//! exactly from a fixed seed.

use vstd::prelude::*;
use vstd::pervasive::VecAdditionalExecFns;

use crate::input::Input;
use crate::rng::Rng;
use crate::rng::spec_next;

verus! {

/// The table of "interesting" overwrite constants.
pub open spec fn interesting_byte(k: u64) -> u8 {
    if k % 8 == 0 {
        0
    } else if k % 8 == 1 {
        1
    } else if k % 8 == 2 {
        0x10
    } else if k % 8 == 3 {
        0x20
    } else if k % 8 == 4 {
        0x40
    } else if k % 8 == 5 {
        0x7f
    } else if k % 8 == 6 {
        0x80
    } else {
        0xff
    }
}

/// Executable lookup in the interesting-constant table.
pub fn pick_interesting(k: u64) -> (r: u8)
    ensures
        r == interesting_byte(k),
{
    let i = k % 8;
    if i == 0 {
        0
    } else if i == 1 {
        1
    } else if i == 2 {
        0x10
    } else if i == 3 {
        0x20
    } else if i == 4 {
        0x40
    } else if i == 5 {
        0x7f
    } else if i == 6 {
        0x80
    } else {
        0xff
    }
}

/// One havoc operator applied to a byte sequence. `sel` chooses the
/// operator, `p` a position, `v` a value; each draw is a raw 64-bit word.
/// On an empty sequence the only meaningful edit is an insertion, so one
/// is forced.
pub open spec fn spec_apply_op(sel: u64, p: u64, v: u64, b: Seq<u8>) -> Seq<u8> {
    if b.len() == 0 {
        seq![(v % 256) as u8]
    } else {
        let len = b.len() as int;
        let pos = (p as int) % len;
        let op = sel % 8;
        if op == 0 {
            // flip one bit
            b.update(pos, b[pos] ^ (1u8 << ((v % 8) as u8)))
        } else if op == 1 {
            // invert the byte
            b.update(pos, b[pos] ^ 0xffu8)
        } else if op == 2 {
            // arithmetic increment, wrapping
            b.update(pos, ((b[pos] + 1) % 256) as u8)
        } else if op == 3 {
            // arithmetic decrement, wrapping
            b.update(pos, ((b[pos] + 255) % 256) as u8)
        } else if op == 4 {
            // overwrite with an interesting constant
            b.update(pos, interesting_byte(v))
        } else if op == 5 {
            // insert a random byte
            if b.len() < usize::MAX {
                b.insert((p as int) % (len + 1), (v % 256) as u8)
            } else {
                b
            }
        } else if op == 6 {
            // delete a byte
            b.remove(pos)
        } else {
            // splice: copy one byte over another
            b.update((v as int) % len, b[pos])
        }
    }
}

/// One havoc step: three draws from state `s` select and parameterize one
/// operator. Returns the state after the draws and the edited bytes.
pub open spec fn spec_step(s: u64, b: Seq<u8>) -> (u64, Seq<u8>) {
    let s1 = spec_next(s);
    let s2 = spec_next(s1);
    let s3 = spec_next(s2);
    (s3, spec_apply_op(s1, s2, s3, b))
}

/// `n` havoc steps in sequence.
pub open spec fn spec_havoc(s: u64, b: Seq<u8>, n: nat) -> (u64, Seq<u8>)
    decreases n,
{
    if n == 0 {
        (s, b)
    } else {
        let st = spec_step(s, b);
        spec_havoc(st.0, st.1, (n - 1) as nat)
    }
}

/// Unrolling `spec_havoc` from the back: `m + 1` steps are `m` steps
/// followed by one.
pub proof fn lemma_havoc_snoc(s: u64, b: Seq<u8>, m: nat)
    ensures
        spec_havoc(s, b, m + 1) == spec_step(spec_havoc(s, b, m).0, spec_havoc(s, b, m).1),
    decreases m,
{
    let st = spec_step(s, b);
    assert(spec_havoc(s, b, m + 1) == spec_havoc(st.0, st.1, m));
    if m == 0 {
        assert(spec_havoc(st.0, st.1, 0) == st);
        assert(spec_step(spec_havoc(s, b, 0).0, spec_havoc(s, b, 0).1) == st);
    } else {
        lemma_havoc_snoc(st.0, st.1, (m - 1) as nat);
        assert(spec_havoc(s, b, m) == spec_havoc(st.0, st.1, (m - 1) as nat));
    }
}

/// The whole mutation: the first draw fixes the operator count
/// (one to eight), then that many havoc steps run. Returns the final
/// random state and the child bytes.
pub open spec fn spec_mutate(s: u64, parent: Seq<u8>) -> (u64, Seq<u8>) {
    let s1 = spec_next(s);
    let n = 1 + (s1 % 8);
    spec_havoc(s1, parent, n as nat)
}

/// Apply one havoc operator in place.
fn apply_op(sel: u64, p: u64, v: u64, buf: &mut Vec<u8>)
    ensures
        final(buf)@ == spec_apply_op(sel, p, v, old(buf)@),
{
    if buf.len() == 0 {
        buf.push((v % 256) as u8);
        assert(final(buf)@ =~= seq![(v % 256) as u8]);
        return;
    }
    let len = buf.len();
    let pos = (p % (len as u64)) as usize;
    assert(pos < len && pos as int == (p as int) % (len as int));
    let op = sel % 8;
    if op == 0 {
        let shift = (v % 8) as u8;
        let b0 = buf[pos];
        buf.set(pos, b0 ^ (1u8 << shift));
    } else if op == 1 {
        let b0 = buf[pos];
        buf.set(pos, b0 ^ 0xffu8);
    } else if op == 2 {
        let b0 = buf[pos];
        let nb: u8 = if b0 == 255 {
            0
        } else {
            b0 + 1
        };
        assert(nb == ((b0 + 1) % 256) as u8);
        buf.set(pos, nb);
    } else if op == 3 {
        let b0 = buf[pos];
        let nb: u8 = if b0 == 0 {
            255
        } else {
            b0 - 1
        };
        assert(nb == ((b0 + 255) % 256) as u8);
        buf.set(pos, nb);
    } else if op == 4 {
        let nb = pick_interesting(v);
        buf.set(pos, nb);
    } else if op == 5 {
        if len < usize::MAX {
            let ipos = (p % (len as u64 + 1)) as usize;
            assert(ipos <= len && ipos as int == (p as int) % (len as int + 1));
            buf.insert(ipos, (v % 256) as u8);
        }
    } else if op == 6 {
        buf.remove(pos);
    } else {
        let dst = (v % (len as u64)) as usize;
        assert(dst < len && dst as int == (v as int) % (len as int));
        let b0 = buf[pos];
        buf.set(dst, b0);
    }
}

/// Produce one mutated child of `parent`. The parent is only read; the
/// child is a fresh `Input` whose bytes, like the random state after the
/// call, are an exact function of the state before it.
pub fn mutate(rng: &mut Rng, parent: &Input) -> (child: Input)
    ensures
        child@ == spec_mutate(old(rng).state, parent@).1,
        final(rng).state == spec_mutate(old(rng).state, parent@).0,
{
    let d0 = rng.next();
    let n: u64 = 1 + (d0 % 8);
    let ghost s0 = rng.state;
    let mut buf = parent.duplicate().into_bytes();
    let mut i: u64 = 0;
    while i < n
        invariant
            i <= n,
            rng.state == spec_havoc(s0, parent@, i as nat).0,
            buf@ == spec_havoc(s0, parent@, i as nat).1,
        decreases n - i,
    {
        let ghost s_i = rng.state;
        let ghost b_i = buf@;
        let sel = rng.next();
        let p = rng.next();
        let v = rng.next();
        apply_op(sel, p, v, &mut buf);
        proof {
            assert((rng.state, buf@) == spec_step(s_i, b_i));
            lemma_havoc_snoc(s0, parent@, i as nat);
        }
        i = i + 1;
    }
    Input::from_bytes(buf)
}

} // verus!
