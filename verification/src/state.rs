use crate::problem::OptimizationGoal;
use crate::solution::Solution;
use std::time::Instant;
use vstd::prelude::*;

verus! {

/// The record of one search run. The solver driver owns it from `initialize`
/// until the run hands back the best solution.
pub struct AlgorithmState<S: Solution> {
    /// Generations completed.
    pub iteration_count: usize,
    /// Fitness evaluations made so far.
    pub evaluations_count: usize,
    /// When the run began.
    pub start_time: Instant,
    /// The best solution found so far, by the goal of the problem.
    pub best_solution: S,
}

impl<S: Solution> AlgorithmState<S> {
    /// The candidate that a step handed back replaces the best solution.
    pub open spec fn improves(self, goal: OptimizationGoal, candidate: Option<S>) -> bool {
        candidate matches Some(c) && goal.better(
            c.fitness_value(),
            self.best_solution.fitness_value(),
        )
    }

    /// The state after one more finished step that handed back `candidate`:
    /// the candidate has become the best solution if it improves on it, and
    /// the iteration counter has gone up by one.
    pub open spec fn after_step(self, goal: OptimizationGoal, candidate: Option<S>) -> Self {
        AlgorithmState {
            iteration_count: (self.iteration_count + 1) as usize,
            evaluations_count: self.evaluations_count,
            start_time: self.start_time,
            best_solution: if self.improves(goal, candidate) {
                candidate->0
            } else {
                self.best_solution
            },
        }
    }

    /// Books one finished step: the candidate, if there is one and it is
    /// strictly better than the best solution so far, becomes the best
    /// solution; the iteration counter goes up by one in either case.
    pub fn record_step(&mut self, goal: OptimizationGoal, candidate: Option<S>)
        requires
            old(self).iteration_count < usize::MAX,
        ensures
            *final(self) == old(self).after_step(goal, candidate),
            final(self).iteration_count == old(self).iteration_count + 1,
            goal.not_worse(
                final(self).best_solution.fitness_value(),
                old(self).best_solution.fitness_value(),
            ),
    {
        if let Some(step_best) = candidate {
            if goal.is_better(step_best.fitness(), self.best_solution.fitness()) {
                self.best_solution = step_best;
            }
        }
        self.iteration_count += 1;
    }
}

} // verus!
