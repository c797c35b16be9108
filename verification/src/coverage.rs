//! Coverage feedback: bucketed edge hit counts and the campaign-wide
//! "seen" state.
//!
//! Raw per-run edge counters are folded into discrete hit classes (one bit
//! per count range), so revisiting an edge a different number of times
//! within the same range is not a novelty signal. The engine keeps, per
//! edge, the set of classes ever seen as a bitmask; a run is novel when
//! some edge exhibits a class outside that set.

use vstd::prelude::*;

verus! {

/// The hit class of a raw per-run edge counter, as a one-bit mask.
/// A zero count has no class.
pub open spec fn class_of(c: u8) -> u8 {
    if c == 0 {
        0
    } else if c == 1 {
        1
    } else if c == 2 {
        2
    } else if c == 3 {
        4
    } else if c < 8 {
        8
    } else if c < 16 {
        16
    } else if c < 32 {
        32
    } else if c < 128 {
        64
    } else {
        128
    }
}

/// Executable hit-class bucketing.
pub fn classify(c: u8) -> (r: u8)
    ensures
        r == class_of(c),
{
    if c == 0 {
        0
    } else if c == 1 {
        1
    } else if c == 2 {
        2
    } else if c == 3 {
        4
    } else if c < 8 {
        8
    } else if c < 16 {
        16
    } else if c < 32 {
        32
    } else if c < 128 {
        64
    } else {
        128
    }
}

/// Edge `i` of the run exhibits an (edge, hit-class) pair not yet in `seen`.
pub open spec fn novel_at(seen: Seq<u8>, run: Seq<u8>, i: int) -> bool {
    class_of(run[i]) != 0 && seen[i] & class_of(run[i]) == 0
}

/// The run exhibits at least one previously unseen (edge, hit-class) pair.
pub open spec fn spec_has_novelty(seen: Seq<u8>, run: Seq<u8>) -> bool {
    exists|i: int| 0 <= i < run.len() && novel_at(seen, run, i)
}

/// The "seen" state after absorbing a run: per edge, the union of the old
/// classes and the run's class.
pub open spec fn merge_seen(seen: Seq<u8>, run: Seq<u8>) -> Seq<u8> {
    Seq::new(seen.len(), |i: int| seen[i] | class_of(run[i]))
}

/// Campaign-wide memory of which (edge, hit-class) pairs have occurred.
pub struct CoverageFeedback {
    /// One class bitmask per instrumented edge.
    pub seen: Vec<u8>,
}

impl CoverageFeedback {
    /// Fresh state over a map of `map_len` edges: nothing seen yet.
    pub fn new(map_len: usize) -> (r: CoverageFeedback)
        ensures
            r.seen@.len() == map_len,
            forall|i: int| 0 <= i < map_len ==> r.seen@[i] == 0u8,
    {
        let mut seen: Vec<u8> = Vec::new();
        let mut i: usize = 0;
        while i < map_len
            invariant
                i <= map_len,
                seen@.len() == i,
                forall|j: int| 0 <= j < i ==> seen@[j] == 0u8,
            decreases map_len - i,
        {
            seen.push(0);
            i = i + 1;
        }
        CoverageFeedback { seen }
    }

    /// Absorb one run's raw edge counters: report whether the run was
    /// novel and fold its hit classes into the seen state.
    pub fn observe(&mut self, run: &Vec<u8>) -> (novel: bool)
        requires
            run@.len() == old(self).seen@.len(),
        ensures
            novel == spec_has_novelty(old(self).seen@, run@),
            final(self).seen@ == merge_seen(old(self).seen@, run@),
    {
        let ghost seen0 = self.seen@;
        let mut novel = false;
        let mut i: usize = 0;
        let n = run.len();
        while i < n
            invariant
                i <= n,
                n == run@.len(),
                self.seen@.len() == n,
                seen0.len() == n,
                forall|j: int| 0 <= j < i ==> self.seen@[j] == (seen0[j] | class_of(run@[j])),
                forall|j: int| i <= j < n ==> self.seen@[j] == seen0[j],
                novel == exists|j: int| 0 <= j < i && novel_at(seen0, run@, j),
            decreases n - i,
        {
            let c = classify(run[i]);
            let s = self.seen[i];
            if c != 0 && s & c == 0 {
                novel = true;
                assert(novel_at(seen0, run@, i as int));
            }
            self.seen.set(i, s | c);
            i = i + 1;
        }
        assert(self.seen@ =~= merge_seen(seen0, run@));
        novel
    }
}

/// Absorbing a run never erases a seen class: the old bits survive in the
/// merged state.
pub proof fn lemma_merge_keeps_seen(seen: Seq<u8>, run: Seq<u8>, i: int)
    requires
        seen.len() == run.len(),
        0 <= i < seen.len(),
    ensures
        merge_seen(seen, run)[i] & seen[i] == seen[i],
{
    let s = seen[i];
    let c = class_of(run[i]);
    assert((s | c) & s == s) by (bit_vector);
}

/// Interestingness is monotonic: a run whose every (edge, hit-class) pair
/// is already in `seen0` stays uninteresting under any later state `seen1`
/// that has kept all of `seen0`'s bits.
pub proof fn lemma_interest_monotonic(seen0: Seq<u8>, seen1: Seq<u8>, run: Seq<u8>)
    requires
        seen0.len() == run.len(),
        seen1.len() == run.len(),
        forall|i: int| 0 <= i < run.len() ==> !novel_at(seen0, run, i),
        forall|i: int| 0 <= i < run.len() ==> seen0[i] & seen1[i] == seen0[i],
    ensures
        !spec_has_novelty(seen1, run),
{
    assert forall|i: int| 0 <= i < run.len() implies !novel_at(seen1, run, i) by {
        let s0 = seen0[i];
        let s1 = seen1[i];
        let c = class_of(run[i]);
        assert(!novel_at(seen0, run, i));
        if c != 0 {
            assert(s0 & c != 0);
            assert(s0 & c != 0 && s0 & s1 == s0 ==> s1 & c != 0) by (bit_vector);
        }
    }
}

/// Replaying the very pairs a run contributed is never novel again: after
/// a run is absorbed, the same run carries no new (edge, hit-class) pair.
pub proof fn lemma_rerun_not_novel(seen: Seq<u8>, run: Seq<u8>)
    requires
        seen.len() == run.len(),
    ensures
        !spec_has_novelty(merge_seen(seen, run), run),
{
    assert forall|i: int| 0 <= i < run.len() implies !novel_at(merge_seen(seen, run), run, i) by {
        let s = seen[i];
        let c = class_of(run[i]);
        if c != 0 {
            assert((s | c) & c != 0 || c == 0) by (bit_vector);
        }
    }
}

} // verus!
