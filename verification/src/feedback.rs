//! The feedback engine: novelty of one execution's metadata.
//!
//! Two independent signals are OR-combined: coverage novelty (a previously
//! unseen (edge, hit-class) pair) and timing novelty (a previously unseen
//! duration bucket). Objective detection lives in `outcome` and is a
//! separate predicate: the two are tuned independently.

use vstd::prelude::*;

use crate::coverage::CoverageFeedback;
use crate::coverage::merge_seen;
use crate::coverage::spec_has_novelty;

verus! {

/// The duration bucket of a run, over coarse wall-clock ranges.
pub open spec fn time_bucket(ms: u64) -> u8 {
    if ms < 1 {
        0
    } else if ms < 4 {
        1
    } else if ms < 16 {
        2
    } else if ms < 64 {
        3
    } else if ms < 256 {
        4
    } else if ms < 1024 {
        5
    } else if ms < 4096 {
        6
    } else {
        7
    }
}

/// The duration bucket as a one-bit mask.
pub open spec fn time_mask(ms: u64) -> u8 {
    1u8 << time_bucket(ms)
}

/// The run's duration falls in a bucket not yet seen.
pub open spec fn spec_time_novel(seen: u8, ms: u64) -> bool {
    seen & time_mask(ms) == 0
}

/// Executable duration bucketing.
pub fn bucket_of(ms: u64) -> (b: u8)
    ensures
        b == time_bucket(ms),
        b < 8,
    {
    if ms < 1 {
        0
    } else if ms < 4 {
        1
    } else if ms < 16 {
        2
    } else if ms < 64 {
        3
    } else if ms < 256 {
        4
    } else if ms < 1024 {
        5
    } else if ms < 4096 {
        6
    } else {
        7
    }
}

/// Campaign-wide memory of which duration buckets have occurred.
pub struct TimeFeedback {
    /// One bit per duration bucket.
    pub seen: u8,
}

impl TimeFeedback {
    /// Fresh state: no bucket seen yet.
    pub fn new() -> (r: TimeFeedback)
        ensures
            r.seen == 0u8,
    {
        TimeFeedback { seen: 0 }
    }

    /// Absorb one run's duration: report whether its bucket is novel and
    /// mark it seen.
    pub fn observe(&mut self, ms: u64) -> (novel: bool)
        ensures
            novel == spec_time_novel(old(self).seen, ms),
            final(self).seen == (old(self).seen | time_mask(ms)),
    {
        let b = bucket_of(ms);
        let m = 1u8 << b;
        let novel = self.seen & m == 0;
        self.seen = self.seen | m;
        novel
    }
}

/// A duration bucket, once absorbed, is never novel again.
pub proof fn lemma_time_rerun_not_novel(seen: u8, ms: u64)
    ensures
        !spec_time_novel(seen | time_mask(ms), ms),
{
    let b = time_bucket(ms);
    let m = time_mask(ms);
    assert(b < 8 ==> (seen | (1u8 << b)) & (1u8 << b) != 0) by (bit_vector);
}

/// Timing novelty is monotonic: a bucket already in `seen0` stays seen
/// under any later state that has kept all of `seen0`'s bits.
pub proof fn lemma_time_monotonic(seen0: u8, seen1: u8, ms: u64)
    requires
        !spec_time_novel(seen0, ms),
        seen0 & seen1 == seen0,
    ensures
        !spec_time_novel(seen1, ms),
{
    let m = time_mask(ms);
    assert(seen0 & m != 0 && seen0 & seen1 == seen0 ==> seen1 & m != 0) by (bit_vector);
}

/// The combined interestingness feedback over one execution's metadata.
pub struct Feedback {
    pub coverage: CoverageFeedback,
    pub timing: TimeFeedback,
}

impl Feedback {
    /// Fresh feedback state over a map of `map_len` edges.
    pub fn new(map_len: usize) -> (r: Feedback)
        ensures
            r.coverage.seen@.len() == map_len,
            forall|i: int| 0 <= i < map_len ==> r.coverage.seen@[i] == 0u8,
            r.timing.seen == 0u8,
    {
        Feedback { coverage: CoverageFeedback::new(map_len), timing: TimeFeedback::new() }
    }

    /// OR-combination of the two signals over one run's metadata. Both
    /// signals are evaluated and both states absorb the run.
    pub fn evaluate(&mut self, run: &Vec<u8>, ms: u64) -> (interesting: bool)
        requires
            run@.len() == old(self).coverage.seen@.len(),
        ensures
            interesting == (spec_has_novelty(old(self).coverage.seen@, run@)
                || spec_time_novel(old(self).timing.seen, ms)),
            final(self).coverage.seen@ == merge_seen(old(self).coverage.seen@, run@),
            final(self).timing.seen == (old(self).timing.seen | time_mask(ms)),
    {
        let cov = self.coverage.observe(run);
        let tim = self.timing.observe(ms);
        cov || tim
    }
}

} // verus!
