use kambo::ranking::{best_index, tournament_winner};
use kambo::{AlgorithmState, ByDuration, ByIterations, OptimizationGoal, Ratio, Solution, TerminationCriteria};
use std::time::{Duration, Instant};

#[derive(Clone, Debug, PartialEq)]
struct Scored {
    label: usize,
    fitness: i64,
}

impl Solution for Scored {
    fn clone_keeps_fitness(&self, _copy: &Self) {}

    fn fitness(&self) -> i64 {
        self.fitness
    }

    fn set_fitness(&mut self, fitness: i64) {
        self.fitness = fitness;
    }
}

fn scored(values: &[i64]) -> Vec<Scored> {
    let mut population = Vec::new();
    for (label, fitness) in values.iter().enumerate() {
        population.push(Scored { label, fitness: *fitness });
    }
    population
}

fn state_with(best: i64, iterations: usize) -> AlgorithmState<Scored> {
    AlgorithmState {
        iteration_count: iterations,
        evaluations_count: 17,
        start_time: Instant::now(),
        best_solution: Scored { label: 0, fitness: best },
    }
}

#[test]
fn minimize_prefers_smaller_values() {
    let goal = OptimizationGoal::Minimize;
    assert!(goal.is_better(1, 2));
    assert!(!goal.is_better(2, 1));
    assert!(!goal.is_better(2, 2));
    assert!(goal.is_better(i64::MIN, i64::MAX));
    assert!(goal.is_better(-3, -2));
}

#[test]
fn maximize_prefers_larger_values() {
    let goal = OptimizationGoal::Maximize;
    assert!(goal.is_better(2, 1));
    assert!(!goal.is_better(1, 2));
    assert!(!goal.is_better(2, 2));
    assert!(goal.is_better(i64::MAX, i64::MIN));
}

#[test]
fn better_is_a_strict_order_on_samples() {
    let values = [-5i64, 0, 3, 3, 9];
    for goal in [OptimizationGoal::Minimize, OptimizationGoal::Maximize] {
        for a in values {
            assert!(!goal.is_better(a, a));
            for b in values {
                assert!(!(goal.is_better(a, b) && goal.is_better(b, a)));
                assert_eq!(goal.is_better(a, b) || goal.is_better(b, a), a != b);
                for c in values {
                    if goal.is_better(a, b) && goal.is_better(b, c) {
                        assert!(goal.is_better(a, c));
                    }
                }
            }
        }
    }
}

#[test]
fn goals_mirror_each_other() {
    for (a, b) in [(1i64, 2i64), (2, 1), (4, 4)] {
        assert_eq!(
            OptimizationGoal::Minimize.is_better(a, b),
            OptimizationGoal::Maximize.is_better(b, a)
        );
    }
}

#[test]
fn best_index_finds_the_minimum() {
    let population = scored(&[5, 1, 9, 3]);
    assert_eq!(best_index(&population, OptimizationGoal::Minimize), 1);
}

#[test]
fn best_index_finds_the_maximum() {
    let population = scored(&[5, 1, 9, 3]);
    assert_eq!(best_index(&population, OptimizationGoal::Maximize), 2);
}

#[test]
fn best_index_keeps_the_earliest_of_equals() {
    let population = scored(&[4, 2, 7, 2, 2]);
    assert_eq!(best_index(&population, OptimizationGoal::Minimize), 1);
    let population = scored(&[4, 7, 2, 7]);
    assert_eq!(best_index(&population, OptimizationGoal::Maximize), 1);
    let population = scored(&[6, 6, 6]);
    assert_eq!(best_index(&population, OptimizationGoal::Minimize), 0);
    assert_eq!(best_index(&population, OptimizationGoal::Maximize), 0);
}

#[test]
fn best_index_of_a_single_individual() {
    let population = scored(&[42]);
    assert_eq!(best_index(&population, OptimizationGoal::Minimize), 0);
}

#[test]
fn tournament_under_a_fixed_draw() {
    let population = scored(&[5, 1, 9, 3]);
    let winner = tournament_winner(&population, &vec![0, 2], OptimizationGoal::Minimize);
    assert_eq!(winner, 0);
    assert_eq!(population[winner].fitness, 5);
}

#[test]
fn tournament_under_a_fixed_draw_maximizing() {
    let population = scored(&[5, 1, 9, 3]);
    let winner = tournament_winner(&population, &vec![0, 2], OptimizationGoal::Maximize);
    assert_eq!(winner, 2);
    assert_eq!(population[winner].fitness, 9);
}

#[test]
fn tournament_follows_draw_order_on_ties() {
    let population = scored(&[3, 8, 3, 8]);
    assert_eq!(tournament_winner(&population, &vec![2, 0], OptimizationGoal::Minimize), 2);
    assert_eq!(tournament_winner(&population, &vec![0, 2], OptimizationGoal::Minimize), 0);
    assert_eq!(tournament_winner(&population, &vec![3, 0, 1], OptimizationGoal::Maximize), 3);
}

#[test]
fn tournament_of_one_competitor() {
    let population = scored(&[5, 1, 9, 3]);
    assert_eq!(tournament_winner(&population, &vec![2], OptimizationGoal::Minimize), 2);
}

#[test]
fn tournament_looks_only_at_the_drawn() {
    let population = scored(&[5, 1, 9, 3]);
    assert_eq!(tournament_winner(&population, &vec![2, 3, 0], OptimizationGoal::Minimize), 3);
}

#[test]
fn ratio_needs_a_denominator() {
    assert!(Ratio::new(1, 0).is_none());
    assert!(Ratio::new(0, 0).is_none());
    let ratio = Ratio::new(3, 10).unwrap();
    assert_eq!(ratio.numerator(), 3);
    assert_eq!(ratio.denominator(), 10);
}

#[test]
fn ratio_zero_and_one() {
    assert_eq!(Ratio::zero().numerator(), 0);
    assert_eq!(Ratio::zero().denominator(), 1);
    assert_eq!(Ratio::one().numerator(), 1);
    assert_eq!(Ratio::one().denominator(), 1);
    assert!(Ratio::zero().is_at_most_one());
    assert!(Ratio::one().is_at_most_one());
    assert!(Ratio::new(5, 5).unwrap().is_at_most_one());
    assert!(!Ratio::new(6, 5).unwrap().is_at_most_one());
}

#[test]
fn rounded_share_exact_values() {
    assert_eq!(Ratio::new(1, 2).unwrap().rounded_share(10), 5);
    assert_eq!(Ratio::new(3, 10).unwrap().rounded_share(10), 3);
    assert_eq!(Ratio::new(1, 3).unwrap().rounded_share(10), 3);
    assert_eq!(Ratio::new(2, 3).unwrap().rounded_share(10), 7);
    assert_eq!(Ratio::new(1, 4).unwrap().rounded_share(10), 3);
    assert_eq!(Ratio::new(1, 2).unwrap().rounded_share(5), 3);
    assert_eq!(Ratio::new(1, 20).unwrap().rounded_share(9), 0);
    assert_eq!(Ratio::new(1, 20).unwrap().rounded_share(10), 1);
    assert_eq!(Ratio::new(3, 2).unwrap().rounded_share(10), 15);
}

#[test]
fn rounded_share_of_the_extremes() {
    assert_eq!(Ratio::zero().rounded_share(10), 0);
    assert_eq!(Ratio::one().rounded_share(10), 10);
    assert_eq!(Ratio::one().rounded_share(0), 0);
    assert_eq!(Ratio::new(7, 7).unwrap().rounded_share(123), 123);
    assert_eq!(Ratio::one().rounded_share(usize::MAX), usize::MAX as u128);
    assert_eq!(
        Ratio::new(u32::MAX, 1).unwrap().rounded_share(usize::MAX),
        (usize::MAX as u128) * (u32::MAX as u128)
    );
}

#[test]
fn rounded_share_is_the_nearest_integer() {
    for (n, d) in [(1u32, 3u32), (2, 7), (5, 9), (1, 2), (9, 4)] {
        for size in [0usize, 1, 2, 9, 10, 101] {
            let share = Ratio::new(n, d).unwrap().rounded_share(size);
            let twice = 2 * (size as u128) * (n as u128);
            let d = d as u128;
            assert!(2 * d * share <= twice + d);
            assert!(twice + d < 2 * d * (share + 1));
        }
    }
}

#[test]
fn record_step_takes_a_better_candidate() {
    let mut state = state_with(5, 3);
    let start = state.start_time;
    state.record_step(OptimizationGoal::Minimize, Some(Scored { label: 9, fitness: 4 }));
    assert_eq!(state.best_solution, Scored { label: 9, fitness: 4 });
    assert_eq!(state.iteration_count, 4);
    assert_eq!(state.evaluations_count, 17);
    assert_eq!(state.start_time, start);
}

#[test]
fn record_step_keeps_the_best_against_a_worse_candidate() {
    let mut state = state_with(5, 0);
    state.record_step(OptimizationGoal::Minimize, Some(Scored { label: 9, fitness: 6 }));
    assert_eq!(state.best_solution, Scored { label: 0, fitness: 5 });
    assert_eq!(state.iteration_count, 1);
}

#[test]
fn record_step_keeps_the_best_against_an_equal_candidate() {
    let mut state = state_with(5, 0);
    state.record_step(OptimizationGoal::Minimize, Some(Scored { label: 9, fitness: 5 }));
    assert_eq!(state.best_solution, Scored { label: 0, fitness: 5 });
    state.record_step(OptimizationGoal::Maximize, Some(Scored { label: 9, fitness: 5 }));
    assert_eq!(state.best_solution, Scored { label: 0, fitness: 5 });
    assert_eq!(state.iteration_count, 2);
}

#[test]
fn record_step_counts_an_empty_step() {
    let mut state = state_with(5, 7);
    state.record_step(OptimizationGoal::Minimize, None);
    assert_eq!(state.best_solution, Scored { label: 0, fitness: 5 });
    assert_eq!(state.iteration_count, 8);
}

#[test]
fn record_step_follows_the_goal() {
    let mut state = state_with(5, 0);
    state.record_step(OptimizationGoal::Maximize, Some(Scored { label: 1, fitness: 4 }));
    assert_eq!(state.best_solution.fitness, 5);
    state.record_step(OptimizationGoal::Maximize, Some(Scored { label: 2, fitness: 6 }));
    assert_eq!(state.best_solution, Scored { label: 2, fitness: 6 });
}

#[test]
fn by_iterations_stops_at_the_maximum() {
    let rule = ByIterations { max_iterations: 3 };
    assert!(!rule.should_terminate(&state_with(0, 0)));
    assert!(!rule.should_terminate(&state_with(0, 2)));
    assert!(rule.should_terminate(&state_with(0, 3)));
    assert!(rule.should_terminate(&state_with(0, 4)));
}

#[test]
fn by_iterations_of_zero_stops_at_once() {
    let rule = ByIterations { max_iterations: 0 };
    assert!(rule.should_terminate(&state_with(0, 0)));
}

#[test]
fn by_duration_compares_elapsed_time_with_the_limit() {
    let rule = ByDuration { time_limit: Duration::from_millis(20) };
    assert!(!rule.is_spent(&Duration::from_millis(19)));
    assert!(rule.is_spent(&Duration::from_millis(20)));
    assert!(rule.is_spent(&Duration::from_millis(21)));
    assert!(!rule.is_spent(&Duration::from_nanos(19_999_999)));
    assert!(rule.is_spent(&Duration::from_secs(1)));
}

#[test]
fn by_duration_with_no_time_stops_at_once() {
    let rule = ByDuration { time_limit: Duration::ZERO };
    assert!(rule.is_spent(&Duration::ZERO));
    assert!(rule.should_terminate(&state_with(0, 0)));
}

#[test]
fn by_duration_with_plenty_of_time_goes_on() {
    let rule = ByDuration { time_limit: Duration::from_secs(3600) };
    assert!(!rule.should_terminate(&state_with(0, 0)));
}

#[test]
fn by_duration_stops_once_the_time_has_passed() {
    let rule = ByDuration { time_limit: Duration::from_millis(5) };
    let state = state_with(0, 0);
    while state.start_time.elapsed() < Duration::from_millis(6) {
        std::hint::spin_loop();
    }
    assert!(rule.should_terminate(&state));
}
