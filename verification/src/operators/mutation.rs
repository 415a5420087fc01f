use crate::solution::Solution;
use rand::rngs::ThreadRng;
use vstd::prelude::*;

verus! {

/// A mutation: a random change made to one individual in place.
pub trait MutationOperator<S: Solution> {
    /// How an individual after `mutate` relates to the same individual before
    /// it. An operator that promises nothing relates every pair.
    open spec fn mutates(&self, before: S, after: S) -> bool {
        true
    }

    /// Perturbs `solution` in place.
    fn mutate(&self, rng: &mut ThreadRng, solution: &mut S)
        ensures
            self.mutates(*old(solution), *final(solution)),
    ;
}

} // verus!
