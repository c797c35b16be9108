use fuzzcore::corpus::Corpus;
use fuzzcore::engine::{Action, Config, Engine, FuzzError, Phase};
use fuzzcore::executor::{run, ScriptedTarget};
use fuzzcore::input::Input;
use fuzzcore::outcome::Outcome;
use fuzzcore::rng::Rng;

fn small_config() -> Config {
    Config {
        bootstrap_count: 2,
        iteration_budget: 16,
        seed_len: 8,
        map_len: 4,
        timeout_ms: 10_000,
        campaign_id: 1,
    }
}

#[test]
fn corpus_selection_is_uniform_over_entries() {
    let mut c = Corpus::new();
    c.add(Input::from_bytes(vec![1]));
    c.add(Input::from_bytes(vec![2]));
    c.add(Input::from_bytes(vec![3]));
    assert_eq!(c.len(), 3);
    // the selected index is the next draw modulo the length
    let mut probe = Rng::new(77);
    let idx = (probe.next() % 3) as usize;
    let expected = c.entry_at(idx).as_bytes().clone();
    let mut r = Rng::new(77);
    let picked = c.select(&mut r);
    assert_eq!(picked.as_bytes(), &expected);
}

#[test]
fn bootstrap_with_no_seed_budget_reports_exhaustion() {
    let mut e = Engine::new(
        Config {
            bootstrap_count: 0,
            iteration_budget: 16,
            seed_len: 8,
            map_len: 4,
            timeout_ms: 10_000,
            campaign_id: 1,
        },
        9,
    );
    match e.next_action() {
        Action::Abort { error } => assert_eq!(error, FuzzError::CorpusExhaustion),
        _ => panic!("an empty corpus with no seeds left must abort"),
    }
    assert_eq!(e.phase, Phase::Terminating);
}

#[test]
fn bootstrap_never_runs_on_an_empty_corpus() {
    let mut e = Engine::new(small_config(), 9);
    let mut t = ScriptedTarget::new(Vec::new());
    // first bootstrap seed
    let input = match e.next_action() {
        Action::Execute { input } => input,
        _ => panic!("bootstrapping must execute a seed"),
    };
    assert_eq!(e.phase, Phase::Bootstrapping);
    assert_eq!(input.len(), 8);
    let o = run(&mut t, &input);
    assert_eq!(o, Outcome::Normal);
    let v = e.record(input, o, &vec![0u8, 0, 0, 0], 0);
    // the first run always shows a fresh timing bucket, so it is kept
    assert!(v.interesting);
    assert_eq!(e.corpus.len(), 1);
    // with the corpus seeded the engine moves to Running and mutates
    match e.next_action() {
        Action::Execute { .. } => {}
        _ => panic!("a seeded engine must run"),
    }
    assert_eq!(e.phase, Phase::Running);
    assert_eq!(e.iterations, 1);
}

#[test]
fn campaign_is_deterministic_with_fixed_seed() {
    // run the same whole campaign twice; corpus sizes and crash stores agree
    let sizes: Vec<(usize, usize)> = (0..2)
        .map(|_| {
            let mut e = Engine::new(small_config(), 4242);
            let mut t = ScriptedTarget::new(vec![
                Outcome::Normal,
                Outcome::Normal,
                Outcome::Crashed,
            ]);
            loop {
                match e.next_action() {
                    Action::Execute { input } => {
                        let o = run(&mut t, &input);
                        let map = vec![0u8, 1, 0, 0];
                        e.record(input, o, &map, 3);
                    }
                    Action::Abort { .. } => break,
                    Action::Finished => break,
                }
            }
            (e.corpus.len(), e.crashes.len())
        })
        .collect();
    assert_eq!(sizes[0], sizes[1]);
}

#[test]
fn objective_goes_to_the_crash_store_byte_identical() {
    let mut e = Engine::new(small_config(), 1);
    let bytes = vec![9, 8, 7, 6, 5, 4];
    let input = Input::from_bytes(bytes.clone());
    let v = e.record(input, Outcome::Crashed, &vec![0u8, 0, 0, 0], 1);
    assert!(v.objective);
    assert_eq!(e.crashes.len(), 1);
    let rec = e.crashes.record_at(0);
    assert_eq!(rec.input.as_bytes(), &bytes);
    assert_eq!(rec.outcome, Outcome::Crashed);
}

#[test]
fn crash_records_replay_to_an_objective_on_a_deterministic_target() {
    // a deterministic target that crashes on this input; the record's bytes
    // replayed through the executor reproduce the crash
    let bytes = vec![0xDE, 0xAD, 0xBE, 0xEF, 0x01, 0x02];
    let mut e = Engine::new(small_config(), 1);
    let mut t = ScriptedTarget::new(vec![Outcome::Crashed, Outcome::Crashed]);
    let input = Input::from_bytes(bytes.clone());
    let o = run(&mut t, &input);
    assert_eq!(o, Outcome::Crashed);
    e.record(input, o, &vec![0u8, 0, 0, 0], 1);
    // replay from the store
    let replay = e.crashes.record_at(0).input.duplicate();
    assert_eq!(replay.as_bytes(), &bytes);
    let o2 = run(&mut t, &replay);
    assert_eq!(o2, Outcome::Crashed);
}

#[test]
fn restart_keeps_the_corpus_and_adds_exactly_the_fault_input() {
    // drive an engine to a seeded state, checkpoint it, "lose" the worker
    let mut e = Engine::new(small_config(), 11);
    e.record(
        Input::from_bytes(vec![1, 2, 3, 4, 5, 6, 7, 8]),
        Outcome::Normal,
        &vec![1u8, 0, 0, 0],
        0,
    );
    let corpus_before = e.corpus.len();
    let crashes_before = e.crashes.len();
    let snapshot = e.checkpoint();
    // the worker dies on input x; the supervisor restores from the snapshot
    let x = vec![5, 5, 5, 5, 5, 5];
    let restored = Engine::restore_after_fault(
        snapshot,
        Input::from_bytes(x.clone()),
        Outcome::Crashed,
    );
    assert_eq!(restored.corpus.len(), corpus_before);
    assert_eq!(restored.crashes.len(), crashes_before + 1);
    let rec = restored.crashes.record_at(crashes_before);
    assert_eq!(rec.input.as_bytes(), &x);
    assert_eq!(rec.outcome, Outcome::Crashed);
}

#[test]
fn iteration_budget_retires_the_campaign() {
    let mut e = Engine::new(
        Config {
            bootstrap_count: 1,
            iteration_budget: 2,
            seed_len: 8,
            map_len: 4,
            timeout_ms: 10_000,
            campaign_id: 1,
        },
        3,
    );
    let mut executed = 0;
    loop {
        match e.next_action() {
            Action::Execute { input } => {
                executed += 1;
                // every run is quiet and equally fast
                e.record(input, Outcome::Normal, &vec![0u8, 0, 0, 0], 0);
            }
            Action::Abort { .. } => panic!("the seeded campaign must not abort"),
            Action::Finished => break,
        }
    }
    // one bootstrap seed (kept via the fresh timing bucket) + two iterations
    assert_eq!(executed, 3);
    assert_eq!(e.iterations, 2);
    assert_eq!(e.phase, Phase::Terminating);
    // once terminating, the engine stays finished
    match e.next_action() {
        Action::Finished => {}
        _ => panic!("a terminated campaign must stay finished"),
    }
}

#[test]
fn shutdown_request_terminates_gracefully() {
    let mut e = Engine::new(small_config(), 8);
    e.request_shutdown();
    assert_eq!(e.phase, Phase::Terminating);
    match e.next_action() {
        Action::Finished => {}
        _ => panic!("shutdown must terminate the campaign"),
    }
}
