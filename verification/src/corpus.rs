//! The corpus of interesting inputs, the uniform random scheduler over it,
//! and the crash store.

use vstd::prelude::*;

use crate::input::Input;
use crate::outcome::Outcome;
use crate::rng::Rng;
use crate::rng::spec_next;

verus! {

/// The append-only, in-memory collection of inputs judged interesting.
pub struct Corpus {
    entries: Vec<Input>,
}

impl View for Corpus {
    type V = Seq<Seq<u8>>;

    closed spec fn view(&self) -> Seq<Seq<u8>> {
        self.entries@.map_values(|e: Input| e@)
    }
}

impl Corpus {
    /// The empty corpus.
    pub fn new() -> (r: Corpus)
        ensures
            r@ == Seq::<Seq<u8>>::empty(),
    {
        let c = Corpus { entries: Vec::new() };
        proof {
            assert(c@ =~= Seq::<Seq<u8>>::empty());
        }
        c
    }

    /// Number of entries.
    pub fn len(&self) -> (n: usize)
        ensures
            n == self@.len(),
    {
        self.entries.len()
    }

    /// Append one entry. The corpus is append-only: no eviction.
    pub fn add(&mut self, entry: Input)
        ensures
            final(self)@ == old(self)@.push(entry@),
    {
        let ghost before = self.entries@;
        self.entries.push(entry);
        proof {
            assert(self.entries@.map_values(|e: Input| e@) =~= before.map_values(|e: Input| e@)
                .push(self.entries@.last()@));
        }
    }

    /// Borrow the entry at position `i`.
    pub fn entry_at(&self, i: usize) -> (r: &Input)
        requires
            i < self@.len(),
        ensures
            r@ == self@[i as int],
    {
        &self.entries[i]
    }

    /// A deep copy, entry by entry.
    pub fn duplicate(&self) -> (c: Corpus)
        ensures
            c@ == self@,
    {
        let mut out = Corpus::new();
        let mut i: usize = 0;
        while i < self.entries.len()
            invariant
                i <= self.entries.len(),
                self@.len() == self.entries@.len(),
                out@ == self@.take(i as int),
            decreases self.entries@.len() - i,
        {
            let e = self.entries[i].duplicate();
            out.add(e);
            assert(self@.take(i as int).push(self@[i as int]) =~= self@.take(i + 1));
            i = i + 1;
        }
        assert(out@ =~= self@);
        out
    }

    /// Scheduling: pick an entry uniformly at random and hand back a copy.
    /// Selection is only defined on a non-empty corpus; the orchestrator's
    /// bootstrap invariant guarantees that.
    pub fn select(&self, rng: &mut Rng) -> (r: Input)
        requires
            self@.len() > 0,
        ensures
            final(rng).state == spec_next(old(rng).state),
            r@ == self@[spec_next(old(rng).state) as int % self@.len() as int],
    {
        let n = self.entries.len();
        let d = rng.below(n as u64);
        let idx = d as usize;
        assert(idx < n && idx as int == spec_next(old(rng).state) as int % n as int);
        self.entries[idx].duplicate()
    }
}

/// An input that triggered an objective, kept byte-identical for later
/// reproduction, together with the outcome it triggered.
pub struct CrashRecord {
    pub input: Input,
    pub outcome: Outcome,
}

impl View for CrashRecord {
    type V = (Seq<u8>, Outcome);

    open spec fn view(&self) -> (Seq<u8>, Outcome) {
        (self.input@, self.outcome)
    }
}

/// The collection of crash records found so far. Durable persistence of
/// each record is the process shell's duty, immediately on insertion.
pub struct CrashStore {
    records: Vec<CrashRecord>,
}

impl View for CrashStore {
    type V = Seq<(Seq<u8>, Outcome)>;

    closed spec fn view(&self) -> Seq<(Seq<u8>, Outcome)> {
        self.records@.map_values(|r: CrashRecord| r@)
    }
}

impl CrashStore {
    /// The empty store.
    pub fn new() -> (r: CrashStore)
        ensures
            r@ == Seq::<(Seq<u8>, Outcome)>::empty(),
    {
        let c = CrashStore { records: Vec::new() };
        proof {
            assert(c@ =~= Seq::<(Seq<u8>, Outcome)>::empty());
        }
        c
    }

    /// Number of records.
    pub fn len(&self) -> (n: usize)
        ensures
            n == self@.len(),
    {
        self.records.len()
    }

    /// Append one record.
    pub fn add(&mut self, record: CrashRecord)
        ensures
            final(self)@ == old(self)@.push(record@),
    {
        let ghost before = self.records@;
        self.records.push(record);
        proof {
            assert(self.records@.map_values(|r: CrashRecord| r@) =~= before.map_values(
                |r: CrashRecord| r@,
            ).push(self.records@.last()@));
        }
    }

    /// A deep copy, record by record.
    pub fn duplicate(&self) -> (c: CrashStore)
        ensures
            c@ == self@,
    {
        let mut out = CrashStore::new();
        let mut i: usize = 0;
        while i < self.records.len()
            invariant
                i <= self.records.len(),
                self@.len() == self.records@.len(),
                out@ == self@.take(i as int),
            decreases self.records@.len() - i,
        {
            let r = &self.records[i];
            out.add(CrashRecord { input: r.input.duplicate(), outcome: r.outcome });
            assert(self@.take(i as int).push(self@[i as int]) =~= self@.take(i + 1));
            i = i + 1;
        }
        assert(out@ =~= self@);
        out
    }

    /// Borrow the record at position `i`.
    pub fn record_at(&self, i: usize) -> (r: &CrashRecord)
        requires
            i < self@.len(),
        ensures
            r@ == self@[i as int],
    {
        &self.records[i]
    }
}

} // verus!
