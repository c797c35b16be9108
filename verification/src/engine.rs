//! The fuzz loop orchestrator: campaign state and its state machine.
//!
//! The engine owns the random source, the corpus, the feedback state, the
//! crash store and the campaign counters. It never performs the target
//! call itself: `next_action` says what to execute next, the process shell
//! executes it inside the restart boundary, and `record` absorbs the
//! result. Checkpoint and restore model the supervisor handing a restarted
//! worker the last known-good state plus the fault-inducing input.

use vstd::prelude::*;

use crate::corpus::Corpus;
use crate::corpus::CrashRecord;
use crate::corpus::CrashStore;
use crate::coverage::merge_seen;
use crate::coverage::spec_has_novelty;
use crate::executor::min_target_len;
use crate::feedback::Feedback;
use crate::feedback::TimeFeedback;
use crate::feedback::spec_time_novel;
use crate::feedback::time_mask;
use crate::generator::generate;
use crate::generator::spec_gen;
use crate::generator::spec_gen_state;
use crate::input::Input;
use crate::mutator::mutate;
use crate::mutator::spec_mutate;
use crate::outcome::Outcome;
use crate::outcome::is_objective;
use crate::outcome::spec_is_objective;
use crate::rng::Rng;
use crate::rng::spec_next;

verus! {

/// Where the campaign stands.
#[derive(Clone, Copy, PartialEq, Eq, Structural, Debug)]
pub enum Phase {
    /// Seeding an empty corpus before the first mutation cycle.
    Bootstrapping,
    /// The main select-mutate-execute-record cycle.
    Running,
    /// Flushing state and winding down.
    Terminating,
}

/// The campaign-fatal conditions. A target crash or hang is not among
/// them: it is routine, absorbed by the restart protocol.
#[derive(Clone, Copy, PartialEq, Eq, Structural, Debug)]
pub enum FuzzError {
    /// The coordination channel could not be established; nothing was fuzzed.
    SetupFailure,
    /// Selection would hit an empty corpus: bootstrapping produced nothing
    /// interesting and no objective, so the campaign cannot proceed.
    CorpusExhaustion,
    /// A crash record could not be written to durable storage; losing the
    /// reproduction of a found bug is unacceptable.
    PersistenceFailure,
    /// A restarted worker could not reconstruct the prior campaign state.
    StateRestoreFailure,
}

/// Campaign parameters.
#[derive(Clone, Copy, PartialEq, Eq, Structural, Debug)]
pub struct Config {
    /// How many seeds to generate when the corpus starts empty.
    pub bootstrap_count: u64,
    /// Total number of mutation iterations to run.
    pub iteration_budget: u64,
    /// Length of generated seed inputs, in bytes.
    pub seed_len: usize,
    /// Number of edges in the shared coverage map.
    pub map_len: usize,
    /// Hard wall-clock budget per execution, in milliseconds, enforced by
    /// the process shell around the executor.
    pub timeout_ms: u64,
    /// Distinguishes concurrent campaigns for inter-process coordination.
    pub campaign_id: u64,
}

impl Config {
    /// The stock configuration: eight bootstrap seeds of 1024 bytes, a
    /// million iterations, a ten-second execution budget, over a map of
    /// `map_len` edges.
    pub fn standard(map_len: usize) -> (c: Config)
        ensures
            c.bootstrap_count == 8,
            c.iteration_budget == 1000000,
            c.seed_len == 1024,
            c.map_len == map_len,
            c.timeout_ms == 10000,
            c.campaign_id == 0x539,
    {
        Config {
            bootstrap_count: 8,
            iteration_budget: 1000000,
            seed_len: 1024,
            map_len,
            timeout_ms: 10000,
            campaign_id: 0x539,
        }
    }
}

/// What the process shell should do next.
pub enum Action {
    /// Run this input through the executor and report back via `record`.
    Execute { input: Input },
    /// The campaign failed; report the error and stop.
    Abort { error: FuzzError },
    /// The campaign is over; flush and exit.
    Finished,
}

/// How `record` judged one execution.
#[derive(Clone, Copy, PartialEq, Eq, Structural, Debug)]
pub struct Verdict {
    /// The run showed a novel coverage or timing signal; the input joined
    /// the corpus.
    pub interesting: bool,
    /// The run crashed or hung; the input was added to the crash store and
    /// must be persisted durably before the loop continues.
    pub objective: bool,
}

/// The whole campaign state.
pub struct Engine {
    pub config: Config,
    pub rng: Rng,
    pub corpus: Corpus,
    pub feedback: Feedback,
    pub crashes: CrashStore,
    /// Mutation iterations begun so far.
    pub iterations: u64,
    /// Bootstrap seeds generated so far.
    pub bootstraps_done: u64,
    pub phase: Phase,
}

impl Engine {
    /// The engine's invariant: the feedback state matches the configured
    /// map, the main loop never sees an empty corpus, counters stay within
    /// their budgets, and every crash record holds an objective outcome on
    /// an input long enough to have reached the target.
    pub open spec fn wf(&self) -> bool {
        &&& self.feedback.coverage.seen@.len() == self.config.map_len as nat
        &&& (self.phase == Phase::Running ==> self.corpus@.len() > 0)
        &&& self.bootstraps_done <= self.config.bootstrap_count
        &&& self.iterations <= self.config.iteration_budget
        &&& forall|i: int|
            0 <= i < self.crashes@.len() ==> spec_is_objective(#[trigger] self.crashes@[i].1)
                && self.crashes@[i].0.len() >= min_target_len()
    }

    /// The engine is past bootstrapping, or can leave it at once.
    pub open spec fn spec_ready(&self) -> bool {
        self.phase == Phase::Running || (self.phase == Phase::Bootstrapping && self.corpus@.len()
            > 0)
    }

    /// A fresh campaign: empty corpus and crash store, nothing seen,
    /// counters at zero, bootstrapping ahead.
    pub fn new(config: Config, seed: u64) -> (e: Engine)
        ensures
            e.wf(),
            e.config == config,
            e.rng == (Rng { state: crate::rng::spec_seed_state(seed) }),
            e.corpus@ == Seq::<Seq<u8>>::empty(),
            e.crashes@ == Seq::<(Seq<u8>, Outcome)>::empty(),
            e.feedback.timing.seen == 0u8,
            e.feedback.coverage.seen@.len() == config.map_len,
            forall|i: int| 0 <= i < config.map_len ==> e.feedback.coverage.seen@[i] == 0u8,
            e.iterations == 0,
            e.bootstraps_done == 0,
            e.phase == Phase::Bootstrapping,
    {
        Engine {
            config,
            rng: Rng::new(seed),
            corpus: Corpus::new(),
            feedback: Feedback::new(config.map_len),
            crashes: CrashStore::new(),
            iterations: 0,
            bootstraps_done: 0,
            phase: Phase::Bootstrapping,
        }
    }

    /// One `Running` step: retire the campaign when the budget is spent,
    /// otherwise select a parent uniformly at random and mutate it.
    fn running_step(&mut self) -> (a: Action)
        requires
            old(self).wf(),
            old(self).phase == Phase::Running,
        ensures
            final(self).wf(),
            final(self).config == old(self).config,
            final(self).corpus@ == old(self).corpus@,
            final(self).crashes@ == old(self).crashes@,
            final(self).feedback == old(self).feedback,
            final(self).bootstraps_done == old(self).bootstraps_done,
            old(self).iterations >= old(self).config.iteration_budget ==> a is Finished
                && final(self).phase == Phase::Terminating && final(self).rng == old(self).rng
                && final(self).iterations == old(self).iterations,
            old(self).iterations < old(self).config.iteration_budget ==> ({
                let s1 = spec_next(old(self).rng.state);
                let parent = old(self).corpus@[s1 as int % old(self).corpus@.len() as int];
                &&& a matches Action::Execute { input } && input@ == spec_mutate(s1, parent).1
                &&& final(self).rng.state == spec_mutate(s1, parent).0
                &&& final(self).iterations == old(self).iterations + 1
                &&& final(self).phase == Phase::Running
            }),
    {
        if self.iterations >= self.config.iteration_budget {
            self.phase = Phase::Terminating;
            return Action::Finished;
        }
        self.iterations = self.iterations + 1;
        let parent = self.corpus.select(&mut self.rng);
        let child = mutate(&mut self.rng, &parent);
        Action::Execute { input: child }
    }

    /// Decide what to do next.
    ///
    /// Bootstrapping generates seeds while the corpus is empty; once it
    /// holds an entry the engine moves to `Running` and mutates. If the
    /// whole seed budget produced nothing, the campaign aborts with
    /// `CorpusExhaustion` rather than silently running on an empty corpus.
    /// In `Running`, each call begins one iteration until the budget is
    /// spent.
    pub fn next_action(&mut self) -> (a: Action)
        requires
            old(self).wf(),
        ensures
            final(self).wf(),
            final(self).config == old(self).config,
            final(self).corpus@ == old(self).corpus@,
            final(self).crashes@ == old(self).crashes@,
            final(self).feedback == old(self).feedback,
            old(self).phase == Phase::Terminating ==> a is Finished && *final(self) == *old(self),
            (old(self).phase == Phase::Bootstrapping && old(self).corpus@.len() == 0
                && old(self).bootstraps_done < old(self).config.bootstrap_count) ==> ({
                &&& a matches Action::Execute { input } && input@ == spec_gen(
                    old(self).rng.state,
                    old(self).config.seed_len as nat,
                ) && input@.len() == old(self).config.seed_len
                &&& final(self).rng.state == spec_gen_state(
                    old(self).rng.state,
                    old(self).config.seed_len as nat,
                )
                &&& final(self).bootstraps_done == old(self).bootstraps_done + 1
                &&& final(self).iterations == old(self).iterations
                &&& final(self).phase == Phase::Bootstrapping
            }),
            (old(self).phase == Phase::Bootstrapping && old(self).corpus@.len() == 0
                && old(self).bootstraps_done >= old(self).config.bootstrap_count) ==> ({
                &&& a matches Action::Abort { error } && error == FuzzError::CorpusExhaustion
                &&& final(self).phase == Phase::Terminating
                &&& final(self).rng == old(self).rng
                &&& final(self).iterations == old(self).iterations
                &&& final(self).bootstraps_done == old(self).bootstraps_done
            }),
            (old(self).spec_ready() && old(self).iterations >= old(self).config.iteration_budget)
                ==> a is Finished && final(self).phase == Phase::Terminating && final(self).rng == old(self).rng
                && final(self).iterations == old(self).iterations
                && final(self).bootstraps_done == old(self).bootstraps_done,
            (old(self).spec_ready() && old(self).iterations < old(self).config.iteration_budget)
                ==> ({
                let s1 = spec_next(old(self).rng.state);
                let parent = old(self).corpus@[s1 as int % old(self).corpus@.len() as int];
                &&& a matches Action::Execute { input } && input@ == spec_mutate(s1, parent).1
                &&& final(self).rng.state == spec_mutate(s1, parent).0
                &&& final(self).iterations == old(self).iterations + 1
                &&& final(self).bootstraps_done == old(self).bootstraps_done
                &&& final(self).phase == Phase::Running
            }),
    {
        match self.phase {
            Phase::Terminating => Action::Finished,
            Phase::Running => self.running_step(),
            Phase::Bootstrapping => {
                if self.corpus.len() > 0 {
                    self.phase = Phase::Running;
                    self.running_step()
                } else if self.bootstraps_done < self.config.bootstrap_count {
                    self.bootstraps_done = self.bootstraps_done + 1;
                    let seed = generate(&mut self.rng, self.config.seed_len);
                    Action::Execute { input: seed }
                } else {
                    self.phase = Phase::Terminating;
                    Action::Abort { error: FuzzError::CorpusExhaustion }
                }
            },
        }
    }

    /// Absorb one execution's result: judge it on both feedback axes,
    /// append it to the corpus when interesting, and to the crash store
    /// when it hit an objective. The two judgements are independent; an
    /// objective always yields a crash record whether or not the run was
    /// also interesting.
    ///
    /// The outcome must come from the executor, whose contract makes any
    /// input too short to reach the target come back `Normal`.
    pub fn record(&mut self, input: Input, outcome: Outcome, run_map: &Vec<u8>, time_ms: u64) -> (v:
        Verdict)
        requires
            old(self).wf(),
            run_map@.len() == old(self).config.map_len as nat,
            input@.len() < min_target_len() ==> outcome == Outcome::Normal,
        ensures
            final(self).wf(),
            v.objective == spec_is_objective(outcome),
            v.interesting == (spec_has_novelty(old(self).feedback.coverage.seen@, run_map@)
                || spec_time_novel(old(self).feedback.timing.seen, time_ms)),
            final(self).feedback.coverage.seen@ == merge_seen(
                old(self).feedback.coverage.seen@,
                run_map@,
            ),
            final(self).feedback.timing.seen == (old(self).feedback.timing.seen | time_mask(time_ms)),
            final(self).corpus@ == if v.interesting {
                old(self).corpus@.push(input@)
            } else {
                old(self).corpus@
            },
            final(self).crashes@ == if v.objective {
                old(self).crashes@.push((input@, outcome))
            } else {
                old(self).crashes@
            },
            final(self).rng == old(self).rng,
            final(self).iterations == old(self).iterations,
            final(self).bootstraps_done == old(self).bootstraps_done,
            final(self).phase == old(self).phase,
            final(self).config == old(self).config,
    {
        let objective = is_objective(outcome);
        let interesting = self.feedback.evaluate(run_map, time_ms);
        if interesting {
            self.corpus.add(input.duplicate());
        }
        if objective {
            self.crashes.add(CrashRecord { input, outcome });
        }
        Verdict { interesting, objective }
    }

    /// The periodic progress report: iterations begun, corpus size, and
    /// objectives found.
    pub fn progress(&self) -> (r: (u64, usize, usize))
        ensures
            r.0 == self.iterations,
            r.1 == self.corpus@.len(),
            r.2 == self.crashes@.len(),
    {
        (self.iterations, self.corpus.len(), self.crashes.len())
    }

    /// A graceful shutdown request: move straight to `Terminating`. Not an
    /// error; the shell flushes and exits.
    pub fn request_shutdown(&mut self)
        requires
            old(self).wf(),
        ensures
            final(self).wf(),
            final(self).phase == Phase::Terminating,
            final(self).config == old(self).config,
            final(self).rng == old(self).rng,
            final(self).corpus@ == old(self).corpus@,
            final(self).crashes@ == old(self).crashes@,
            final(self).feedback == old(self).feedback,
            final(self).iterations == old(self).iterations,
            final(self).bootstraps_done == old(self).bootstraps_done,
    {
        self.phase = Phase::Terminating;
    }

    /// A deep copy of the whole campaign state: the checkpoint a
    /// supervisor keeps while a worker runs.
    pub fn checkpoint(&self) -> (c: Engine)
        ensures
            c.config == self.config,
            c.rng == self.rng,
            c.corpus@ == self.corpus@,
            c.crashes@ == self.crashes@,
            c.feedback.coverage.seen@ == self.feedback.coverage.seen@,
            c.feedback.timing == self.feedback.timing,
            c.iterations == self.iterations,
            c.bootstraps_done == self.bootstraps_done,
            c.phase == self.phase,
            self.wf() ==> c.wf(),
    {
        let c = Engine {
            config: self.config,
            rng: Rng { state: self.rng.state },
            corpus: self.corpus.duplicate(),
            feedback: Feedback {
                coverage: crate::coverage::CoverageFeedback {
                    seen: crate::input::copy_bytes(&self.feedback.coverage.seen),
                },
                timing: TimeFeedback { seen: self.feedback.timing.seen },
            },
            crashes: self.crashes.duplicate(),
            iterations: self.iterations,
            bootstraps_done: self.bootstraps_done,
            phase: self.phase,
        };
        proof {
            if self.wf() {
                assert forall|i: int| 0 <= i < c.crashes@.len() implies spec_is_objective(
                    #[trigger] c.crashes@[i].1,
                ) && c.crashes@[i].0.len() >= min_target_len() by {
                    assert(c.crashes@[i] == self.crashes@[i]);
                    assert(spec_is_objective(self.crashes@[i].1));
                }
            }
        }
        c
    }

    /// Rebuild a worker from the supervisor's checkpoint after the target
    /// killed it: the corpus, feedback and counters come back unchanged,
    /// and exactly one new crash record is added, byte-identical to the
    /// input that caused the fault. An input too short to reach the target
    /// cannot have killed the worker, so it cannot arrive here.
    pub fn restore_after_fault(snapshot: Engine, fault_input: Input, fault_outcome: Outcome) -> (e:
        Engine)
        requires
            snapshot.wf(),
            spec_is_objective(fault_outcome),
            fault_input@.len() >= min_target_len(),
        ensures
            e.wf(),
            e.config == snapshot.config,
            e.rng == snapshot.rng,
            e.corpus@ == snapshot.corpus@,
            e.crashes@ == snapshot.crashes@.push((fault_input@, fault_outcome)),
            e.feedback == snapshot.feedback,
            e.iterations == snapshot.iterations,
            e.bootstraps_done == snapshot.bootstraps_done,
            e.phase == snapshot.phase,
    {
        let mut e = snapshot;
        e.crashes.add(CrashRecord { input: fault_input, outcome: fault_outcome });
        proof {
            assert forall|i: int| 0 <= i < e.crashes@.len() implies spec_is_objective(
                #[trigger] e.crashes@[i].1,
            ) && e.crashes@[i].0.len() >= min_target_len() by {
                if i < e.crashes@.len() - 1 {
                    assert(e.crashes@[i] == snapshot.crashes@[i]);
                    assert(spec_is_objective(snapshot.crashes@[i].1));
                } else {
                    assert(e.crashes@[i] == (fault_input@, fault_outcome));
                }
            }
        }
        e
    }
}

/// The bootstrap invariant: a well-formed engine in the `Running` phase
/// always has a non-empty corpus, so selection cannot fail.
pub proof fn lemma_running_corpus_nonempty(e: &Engine)
    requires
        e.wf(),
        e.phase == Phase::Running,
    ensures
        e.corpus@.len() > 0,
{
}

/// Reproducibility of the crash store: every record a well-formed engine
/// holds carries an objective outcome, on an input long enough that the
/// executor hands it to the target — byte-identical replay through the
/// executor reaches the target with exactly the recorded bytes.
pub proof fn lemma_crash_records_replayable(e: &Engine, i: int)
    requires
        e.wf(),
        0 <= i < e.crashes@.len(),
    ensures
        spec_is_objective(e.crashes@[i].1),
        e.crashes@[i].0.len() >= min_target_len(),
{
    assert(spec_is_objective(e.crashes@[i].1));
}

} // verus!
