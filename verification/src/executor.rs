//! The isolated executor's decision logic and the target capability.
//!
//! The target is an opaque, externally supplied callable that consumes a
//! three-byte "magic" prefix and a payload, and may crash or hang; the
//! process shell around the library supplies the real one inside a
//! restart-capable boundary with a hard timeout. The executor here owns
//! the calling convention: inputs of four bytes or fewer short-circuit to
//! a normal outcome without reaching the target at all; longer inputs are
//! split at byte three.

use vstd::prelude::*;

use crate::input::Input;
use crate::input::copy_bytes;
use crate::outcome::Outcome;

verus! {

/// Minimum input length that actually reaches the target.
pub open spec fn min_target_len() -> nat {
    5
}

/// Length of the magic prefix handed to the target.
pub open spec fn magic_len() -> nat {
    3
}

/// The capability the executor needs: a callable taking the split input.
/// An implementation classifies its own completion (normal return, fault,
/// or exceeded time budget); nothing is promised about which outcome
/// comes back, only that the call is appended to the call history.
pub trait Target {
    /// The history of (magic, payload) pairs the target has consumed.
    spec fn calls(&self) -> Seq<(Seq<u8>, Seq<u8>)>;

    /// Consume one split input and classify the execution.
    fn invoke(&mut self, magic: &Vec<u8>, payload: &Vec<u8>) -> (o: Outcome)
        ensures
            final(self).calls() == old(self).calls().push((magic@, payload@)),
    ;
}

/// The executor's decision for one input: skip it, or hand the target
/// this split.
pub enum RunPlan {
    /// The input is too short to reach the target; the run is `Normal` and
    /// the target is never invoked.
    Skip,
    /// Invoke the target with this magic prefix and payload.
    Invoke { magic: Vec<u8>, payload: Vec<u8> },
}

/// The executor's calling convention, as a pure decision. Inputs of four
/// bytes or fewer are skipped; longer ones are split into the three-byte
/// magic prefix `input[0..3]` and the payload `input[3..]`.
pub fn plan_run(input: &Input) -> (p: RunPlan)
    ensures
        input@.len() < min_target_len() ==> p is Skip,
        input@.len() >= min_target_len() ==> ({
            &&& p matches RunPlan::Invoke { magic, payload } && magic@ == input@.subrange(
                0,
                magic_len() as int,
            ) && payload@ == input@.subrange(magic_len() as int, input@.len() as int)
        }),
{
    let n = input.len();
    if n <= 4 {
        return RunPlan::Skip;
    }
    let bytes = input.as_bytes();
    let mut magic: Vec<u8> = Vec::new();
    let mut i: usize = 0;
    while i < 3
        invariant
            i <= 3,
            bytes@.len() > 4,
            bytes@ == input@,
            magic@ == input@.subrange(0, i as int),
        decreases 3 - i,
    {
        magic.push(bytes[i]);
        assert(input@.subrange(0, i as int).push(input@[i as int]) =~= input@.subrange(
            0,
            i + 1,
        ));
        i = i + 1;
    }
    let mut payload: Vec<u8> = Vec::new();
    let mut j: usize = 3;
    while j < bytes.len()
        invariant
            3 <= j <= bytes@.len(),
            bytes@.len() > 4,
            bytes@ == input@,
            payload@ == input@.subrange(3, j as int),
        decreases bytes@.len() - j,
    {
        payload.push(bytes[j]);
        assert(input@.subrange(3, j as int).push(input@[j as int]) =~= input@.subrange(
            3,
            j + 1,
        ));
        j = j + 1;
    }
    RunPlan::Invoke { magic, payload }
}

/// Execute one input against the target.
///
/// Inputs of four bytes or fewer yield `Normal` without invoking the
/// target and leave it untouched; longer inputs reach the target exactly
/// once, as the three-byte prefix `input[0..3]` and the remainder
/// `input[3..]`.
pub fn run<T: Target>(target: &mut T, input: &Input) -> (o: Outcome)
    ensures
        input@.len() < min_target_len() ==> o == Outcome::Normal && *final(target) == *old(target),
        input@.len() >= min_target_len() ==> final(target).calls() == old(target).calls().push(
            (
                input@.subrange(0, magic_len() as int),
                input@.subrange(magic_len() as int, input@.len() as int),
            ),
        ),
{
    match plan_run(input) {
        RunPlan::Skip => Outcome::Normal,
        RunPlan::Invoke { magic, payload } => target.invoke(&magic, &payload),
    }
}

/// A deterministic target double: it answers calls with a scripted list of
/// outcomes (then `Normal` once the script is exhausted) and records every
/// call. With it, a whole campaign replays exactly.
pub struct ScriptedTarget {
    script: Vec<Outcome>,
    log: Vec<(Vec<u8>, Vec<u8>)>,
}

impl ScriptedTarget {
    /// A target that answers the `k`-th call with `script[k]`.
    pub fn new(script: Vec<Outcome>) -> (r: ScriptedTarget)
        ensures
            r.calls() == Seq::<(Seq<u8>, Seq<u8>)>::empty(),
    {
        let t = ScriptedTarget { script, log: Vec::new() };
        proof {
            assert(t.calls() =~= Seq::<(Seq<u8>, Seq<u8>)>::empty());
        }
        t
    }

    /// How many calls the target has consumed.
    pub fn call_count(&self) -> (n: usize)
        ensures
            n == self.calls().len(),
    {
        self.log.len()
    }

    /// The magic prefix of call `i`, copied out.
    pub fn magic_of_call(&self, i: usize) -> (r: Vec<u8>)
        requires
            i < self.calls().len(),
        ensures
            r@ == self.calls()[i as int].0,
    {
        copy_bytes(&self.log[i].0)
    }

    /// The payload of call `i`, copied out.
    pub fn payload_of_call(&self, i: usize) -> (r: Vec<u8>)
        requires
            i < self.calls().len(),
        ensures
            r@ == self.calls()[i as int].1,
    {
        copy_bytes(&self.log[i].1)
    }
}

impl Target for ScriptedTarget {
    closed spec fn calls(&self) -> Seq<(Seq<u8>, Seq<u8>)> {
        self.log@.map_values(|p: (Vec<u8>, Vec<u8>)| (p.0@, p.1@))
    }

    fn invoke(&mut self, magic: &Vec<u8>, payload: &Vec<u8>) -> (o: Outcome) {
        let ghost before = self.log@;
        let idx = self.log.len();
        let m = copy_bytes(magic);
        let p = copy_bytes(payload);
        self.log.push((m, p));
        proof {
            assert(self.log@.map_values(|q: (Vec<u8>, Vec<u8>)| (q.0@, q.1@)) =~= before
                .map_values(|q: (Vec<u8>, Vec<u8>)| (q.0@, q.1@)).push((magic@, payload@)));
        }
        if idx < self.script.len() {
            self.script[idx]
        } else {
            Outcome::Normal
        }
    }
}

} // verus!
