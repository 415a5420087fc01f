use crate::solution::Solution;
use vstd::prelude::*;

verus! {

/// The direction in which fitness improves. It is fixed per problem.
#[derive(Debug, Clone, Copy, PartialEq, Eq, Structural)]
pub enum OptimizationGoal {
    /// Smaller fitness values are better.
    Minimize,
    /// Larger fitness values are better.
    Maximize,
}

impl OptimizationGoal {
    /// `new_fitness` is strictly better than `current_fitness` under this goal.
    pub open spec fn better(self, new_fitness: i64, current_fitness: i64) -> bool {
        match self {
            OptimizationGoal::Minimize => new_fitness < current_fitness,
            OptimizationGoal::Maximize => new_fitness > current_fitness,
        }
    }

    /// `fitness` is at least as good as `reference` under this goal.
    pub open spec fn not_worse(self, fitness: i64, reference: i64) -> bool {
        !self.better(reference, fitness)
    }

    /// Tells whether `new_fitness` is strictly better than `current_fitness`.
    #[inline]
    pub fn is_better(&self, new_fitness: i64, current_fitness: i64) -> (better: bool)
        ensures
            better == self.better(new_fitness, current_fitness),
    {
        match self {
            OptimizationGoal::Minimize => new_fitness < current_fitness,
            OptimizationGoal::Maximize => new_fitness > current_fitness,
        }
    }

    /// Under either goal, "better" is a strict total order on fitness values:
    /// nothing is better than itself, two values are never each better than
    /// the other, "better" is transitive, and of two different values one is
    /// better.
    pub proof fn better_is_strict_total_order(self, a: i64, b: i64, c: i64)
        ensures
            !self.better(a, a),
            self.better(a, b) ==> !self.better(b, a),
            self.better(a, b) && self.better(b, c) ==> self.better(a, c),
            a != b ==> self.better(a, b) || self.better(b, a),
    {
    }
}

/// An optimization problem: it names its solution type, fixes the direction of
/// improvement, and scores solutions.
pub trait Problem {
    /// The representation of a candidate answer.
    type Solution: Solution;

    /// The direction in which fitness improves.
    const GOAL: OptimizationGoal;

    /// How a solution after `evaluate` relates to the same solution before it.
    /// A problem that promises nothing relates every pair.
    open spec fn evaluated(&self, before: Self::Solution, after: Self::Solution) -> bool {
        true
    }

    /// Computes the fitness of `solution` and stores it in the solution.
    fn evaluate(&self, solution: &mut Self::Solution)
        ensures
            self.evaluated(*old(solution), *final(solution)),
    ;
}

} // verus!
