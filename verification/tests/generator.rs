use corostep::bodies::{DoubleEcho, ImmediateReturn, TwoYields};
use corostep::generator::{Gen, GeneratorState};

#[test]
fn scenario_two_yields_then_done() {
    let mut g = Gen::new(TwoYields::new());
    assert_eq!(g.resume_with(0), GeneratorState::Yielded(1));
    assert_eq!(g.resume_with(10), GeneratorState::Yielded(2));
    assert_eq!(g.resume_with(20), GeneratorState::Completed("done".to_string()));
}

#[test]
fn scenario_immediate_completion() {
    let mut g = Gen::new(ImmediateReturn::new());
    assert_eq!(g.resume(), GeneratorState::Completed(42));
}

#[test]
fn scenario_echo_loop() {
    let mut g = Gen::new(DoubleEcho::new());
    assert_eq!(g.resume_with(3), GeneratorState::Yielded(6));
    assert_eq!(g.resume_with(5), GeneratorState::Yielded(10));
    assert_eq!(g.resume_with(0), GeneratorState::Completed(8));
}

#[test]
fn cell_empty_after_every_step() {
    let mut g = Gen::new(DoubleEcho::new());
    assert!(g.cell_is_empty());
    g.resume_with(7);
    assert!(g.cell_is_empty());
    g.resume_with(1);
    assert!(g.cell_is_empty());
    g.resume_with(0);
    assert!(g.cell_is_empty());

    // A body that finishes without ever touching the cell leaves the unread
    // hand-in value behind; the driver still reports an empty cell.
    let mut h = Gen::new(ImmediateReturn::new());
    h.resume();
    assert!(h.cell_is_empty());
}

#[test]
fn each_input_is_received_exactly() {
    // The echo body returns twice whatever its suspension received, so the
    // yielded values witness that each step's input reaches the body
    // unchanged.
    let mut g = Gen::new(DoubleEcho::new());
    for n in [9u64, 1, 123456789, 4, 2] {
        assert_eq!(g.resume_with(n), GeneratorState::Yielded(2 * n));
    }
    assert_eq!(g.resume_with(0), GeneratorState::Completed(9 + 1 + 123456789 + 4 + 2));
}

#[test]
fn echo_wraps_on_overflow() {
    let mut g = Gen::new(DoubleEcho::new());
    assert_eq!(
        g.resume_with(u64::MAX),
        GeneratorState::Yielded(u64::MAX.wrapping_mul(2))
    );
    assert_eq!(g.resume_with(0), GeneratorState::Completed(u64::MAX));
}

#[test]
fn completed_comes_only_at_the_end() {
    // A long run of steps stays `Yielded` for as long as the body keeps
    // suspending; `Completed` is reported exactly once, at the end.
    let mut g = Gen::new(DoubleEcho::new());
    for i in 1..=1000u64 {
        assert!(matches!(g.resume_with(i), GeneratorState::Yielded(_)));
    }
    assert!(matches!(g.resume_with(0), GeneratorState::Completed(_)));
}

#[test]
fn hand_in_values_do_not_disturb_a_body_that_ignores_them() {
    // `TwoYields` discards whatever it is handed: any inputs produce the
    // same outcomes.
    let mut a = Gen::new(TwoYields::new());
    let mut b = Gen::new(TwoYields::new());
    assert_eq!(a.resume_with(0), b.resume_with(77));
    assert_eq!(a.resume_with(1), b.resume_with(1000));
    assert_eq!(a.resume_with(2), b.resume_with(u64::MAX));
}

#[test]
fn equal_bodies_and_inputs_give_equal_outcomes() {
    // Stepping is deterministic: two drivers over equal fresh bodies, handed
    // the same inputs, report the same outcomes.
    let mut a = Gen::new(DoubleEcho::new());
    let mut b = Gen::new(DoubleEcho::new());
    for n in [4u64, 9, 1, 0] {
        assert_eq!(a.resume_with(n), b.resume_with(n));
    }
}
