use fuzzcore::coverage::{classify, CoverageFeedback};
use fuzzcore::executor::{run, ScriptedTarget, Target};
use fuzzcore::feedback::{bucket_of, Feedback};
use fuzzcore::generator::generate;
use fuzzcore::input::Input;
use fuzzcore::mutator::{mutate, pick_interesting};
use fuzzcore::outcome::{is_objective, Outcome};
use fuzzcore::rng::Rng;

#[test]
fn rng_is_deterministic_and_exact() {
    // xorshift64 by hand for seed 1
    let x: u64 = 1;
    let a = x ^ (x << 13);
    let b = a ^ (a >> 7);
    let expected = b ^ (b << 17);
    let mut r = Rng::new(1);
    assert_eq!(r.next(), expected);
    let mut r2 = Rng::new(1);
    assert_eq!(r2.next(), expected);
}

#[test]
fn rng_zero_seed_is_not_stuck() {
    let mut r = Rng::new(0);
    let v = r.next();
    assert_ne!(v, 0);
    assert_ne!(r.next(), v);
}

#[test]
fn rng_below_stays_below() {
    let mut r = Rng::new(42);
    for _ in 0..100 {
        assert!(r.below(7) < 7);
    }
}

#[test]
fn hit_classes_are_the_documented_buckets() {
    assert_eq!(classify(0), 0);
    assert_eq!(classify(1), 1);
    assert_eq!(classify(2), 2);
    assert_eq!(classify(3), 4);
    assert_eq!(classify(4), 8);
    assert_eq!(classify(7), 8);
    assert_eq!(classify(8), 16);
    assert_eq!(classify(15), 16);
    assert_eq!(classify(16), 32);
    assert_eq!(classify(31), 32);
    assert_eq!(classify(32), 64);
    assert_eq!(classify(127), 64);
    assert_eq!(classify(128), 128);
    assert_eq!(classify(255), 128);
}

#[test]
fn time_buckets_are_the_documented_ranges() {
    assert_eq!(bucket_of(0), 0);
    assert_eq!(bucket_of(1), 1);
    assert_eq!(bucket_of(3), 1);
    assert_eq!(bucket_of(4), 2);
    assert_eq!(bucket_of(100), 4);
    assert_eq!(bucket_of(1023), 5);
    assert_eq!(bucket_of(5000), 7);
    assert_eq!(bucket_of(u64::MAX), 7);
}

#[test]
fn coverage_novelty_fires_once_per_pair() {
    let mut cov = CoverageFeedback::new(4);
    let run_a = vec![0u8, 1, 0, 0];
    assert!(cov.observe(&run_a));
    // the same pairs again: monotonic, never novel again
    assert!(!cov.observe(&run_a));
    // a different hit class on the same edge is a new pair
    let run_b = vec![0u8, 2, 0, 0];
    assert!(cov.observe(&run_b));
    assert!(!cov.observe(&run_b));
    // a new edge is a new pair
    let run_c = vec![0u8, 1, 1, 0];
    assert!(cov.observe(&run_c));
}

#[test]
fn combined_feedback_is_an_or_of_both_signals() {
    let mut fb = Feedback::new(2);
    let quiet = vec![0u8, 0];
    // first run: nothing on the map, but the duration bucket is new
    assert!(fb.evaluate(&quiet, 0));
    // same bucket and still nothing on the map: not interesting
    assert!(!fb.evaluate(&quiet, 0));
    // coverage novelty alone suffices
    let loud = vec![1u8, 0];
    assert!(fb.evaluate(&loud, 0));
    // timing novelty alone suffices
    assert!(fb.evaluate(&quiet, 2000));
}

#[test]
fn objective_is_exactly_crash_or_hang() {
    assert!(!is_objective(Outcome::Normal));
    assert!(is_objective(Outcome::Crashed));
    assert!(is_objective(Outcome::TimedOut));
}

#[test]
fn short_inputs_never_reach_the_target() {
    // lengths 0 through 4 short-circuit to Normal with no target call
    for len in 0..=4usize {
        let mut t = ScriptedTarget::new(vec![Outcome::Crashed]);
        let input = Input::from_bytes(vec![0xAB; len]);
        assert_eq!(run(&mut t, &input), Outcome::Normal);
        assert_eq!(t.call_count(), 0);
        // deterministic and idempotent
        assert_eq!(run(&mut t, &input), Outcome::Normal);
        assert_eq!(t.call_count(), 0);
    }
}

#[test]
fn long_inputs_are_split_at_byte_three() {
    let mut t = ScriptedTarget::new(Vec::new());
    let input = Input::from_bytes(vec![10, 11, 12, 13, 14, 15, 16]);
    assert_eq!(run(&mut t, &input), Outcome::Normal);
    assert_eq!(t.call_count(), 1);
    assert_eq!(t.magic_of_call(0), vec![10, 11, 12]);
    assert_eq!(t.payload_of_call(0), vec![13, 14, 15, 16]);
}

#[test]
fn five_byte_input_reaches_the_target() {
    let mut t = ScriptedTarget::new(vec![Outcome::TimedOut]);
    let input = Input::from_bytes(vec![1, 2, 3, 4, 5]);
    assert_eq!(run(&mut t, &input), Outcome::TimedOut);
    assert_eq!(t.magic_of_call(0), vec![1, 2, 3]);
    assert_eq!(t.payload_of_call(0), vec![4, 5]);
}

#[test]
fn scripted_target_answers_its_script_then_normal() {
    let mut t = ScriptedTarget::new(vec![Outcome::Crashed, Outcome::TimedOut]);
    let input = Input::from_bytes(vec![0; 8]);
    assert_eq!(run(&mut t, &input), Outcome::Crashed);
    assert_eq!(run(&mut t, &input), Outcome::TimedOut);
    assert_eq!(run(&mut t, &input), Outcome::Normal);
}

#[test]
fn generator_is_deterministic_with_fixed_seed() {
    let mut r1 = Rng::new(99);
    let mut r2 = Rng::new(99);
    let a = generate(&mut r1, 1024);
    let b = generate(&mut r2, 1024);
    assert_eq!(a.len(), 1024);
    assert_eq!(a.as_bytes(), b.as_bytes());
    // and independent draws differ from the first buffer
    let c = generate(&mut r1, 1024);
    assert_ne!(a.as_bytes(), c.as_bytes());
}

#[test]
fn generator_empty_length() {
    let mut r = Rng::new(5);
    let e = generate(&mut r, 0);
    assert_eq!(e.len(), 0);
}

#[test]
fn mutation_leaves_the_parent_untouched() {
    let parent = Input::from_bytes((0..64u8).collect());
    let before = parent.as_bytes().clone();
    let mut r = Rng::new(7);
    let child = mutate(&mut r, &parent);
    assert_eq!(parent.as_bytes(), &before);
    // the child is its own storage: growing it cannot touch the parent
    let mut owned = child.into_bytes();
    owned.push(0xFF);
    assert_eq!(parent.as_bytes(), &before);
}

#[test]
fn mutation_is_deterministic_with_fixed_seed() {
    let parent = Input::from_bytes(vec![1, 2, 3, 4, 5, 6, 7, 8]);
    let mut r1 = Rng::new(1234);
    let mut r2 = Rng::new(1234);
    let a = mutate(&mut r1, &parent);
    let b = mutate(&mut r2, &parent);
    assert_eq!(a.as_bytes(), b.as_bytes());
    // a second draw from the same source gives an independent child
    let c = mutate(&mut r1, &parent);
    let d = mutate(&mut r2, &parent);
    assert_eq!(c.as_bytes(), d.as_bytes());
}

#[test]
fn mutation_on_empty_parent_inserts() {
    let parent = Input::new();
    let mut r = Rng::new(3);
    let child = mutate(&mut r, &parent);
    assert!(child.len() > 0);
    assert_eq!(parent.len(), 0);
}

#[test]
fn mutation_eventually_changes_content() {
    // no single call must change the bytes, but across many seeds some do
    let parent = Input::from_bytes(vec![0; 16]);
    let mut changed = false;
    for seed in 0..32u64 {
        let mut r = Rng::new(seed);
        let child = mutate(&mut r, &parent);
        if child.as_bytes() != parent.as_bytes() {
            changed = true;
        }
    }
    assert!(changed);
}

#[test]
fn interesting_constants_cycle_by_low_bits() {
    assert_eq!(pick_interesting(0), 0);
    assert_eq!(pick_interesting(1), 1);
    assert_eq!(pick_interesting(5), 0x7f);
    assert_eq!(pick_interesting(6), 0x80);
    assert_eq!(pick_interesting(7), 0xff);
    assert_eq!(pick_interesting(8), 0);
    assert_eq!(pick_interesting(15), 0xff);
}
