use crate::problem::Problem;
use vstd::prelude::*;

verus! {

/// Every individual of `after` is the evaluated form of the individual at the
/// same position of `before`.
pub open spec fn all_evaluated<P: Problem>(
    problem: &P,
    before: Seq<P::Solution>,
    after: Seq<P::Solution>,
) -> bool {
    &&& after.len() == before.len()
    &&& forall|i: int|
        #![trigger after[i]]
        0 <= i < before.len() ==> problem.evaluated(before[i], after[i])
}

/// Evaluates every individual of a population in place, one after the other,
/// in population order.
pub fn evaluate_population<P: Problem>(problem: &P, population: &mut [P::Solution])
    ensures
        all_evaluated(problem, old(population)@, final(population)@),
{
    let mut i: usize = 0;
    while i < population.len()
        invariant
            population@.len() == old(population)@.len(),
            i <= population@.len(),
            forall|j: int|
                #![trigger population@[j]]
                0 <= j < i ==> problem.evaluated(old(population)@[j], population@[j]),
            forall|j: int|
                #![trigger population@[j]]
                i <= j < population@.len() ==> population@[j] == old(population)@[j],
        decreases population@.len() - i,
    {
        problem.evaluate(&mut population[i]);
        i += 1;
    }
}

/// Evaluates every individual of a population in place on the worker threads
/// of `rayon`: calls `for_each` on the slice's `par_iter_mut`, which hands each
/// element to the closure exactly once, and the closure calls `evaluate` on
/// it. Every individual is therefore evaluated at its own position, as in the
/// sequential form; the order in time is not fixed.
#[verifier::external_body]
pub(crate) fn evaluate_population_in_parallel<P: Problem + Sync>(
    problem: &P,
    population: &mut [P::Solution],
)
    ensures
        all_evaluated(problem, old(population)@, final(population)@),
{
    rayon::iter::ParallelIterator::for_each(
        rayon::iter::IntoParallelRefMutIterator::par_iter_mut(population),
        |solution| problem.evaluate(solution),
    );
}

} // verus!
