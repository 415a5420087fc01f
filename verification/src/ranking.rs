use crate::problem::OptimizationGoal;
use crate::solution::Solution;
use vstd::prelude::*;

verus! {

/// The fitness scores of a population, in population order.
pub open spec fn fitnesses<S: Solution>(population: Seq<S>) -> Seq<i64> {
    Seq::new(population.len(), |i: int| population[i].fitness_value())
}

/// Position `k` holds the best score of `scores`, and is the earliest position
/// that does: no score is better than it, and it is better than every score
/// before it.
pub open spec fn is_first_best(scores: Seq<i64>, goal: OptimizationGoal, k: int) -> bool {
    &&& 0 <= k < scores.len()
    &&& forall|j: int| 0 <= j < scores.len() ==> !goal.better(#[trigger] scores[j], scores[k])
    &&& forall|j: int| 0 <= j < k ==> goal.better(scores[k], #[trigger] scores[j])
}

/// A sequence of scores has at most one first-best position.
pub proof fn first_best_is_unique(scores: Seq<i64>, goal: OptimizationGoal, a: int, b: int)
    requires
        is_first_best(scores, goal, a),
        is_first_best(scores, goal, b),
    ensures
        a == b,
{
    if a < b {
        assert(!goal.better(scores[b], scores[a]));
    } else if b < a {
        assert(!goal.better(scores[a], scores[b]));
    }
}

/// Finds the best individual of a non-empty population under `goal`. Of
/// several equally good individuals the earliest wins.
pub fn best_index<S: Solution>(population: &[S], goal: OptimizationGoal) -> (best: usize)
    requires
        population@.len() > 0,
    ensures
        is_first_best(fitnesses(population@), goal, best as int),
{
    let ghost scores = fitnesses(population@);
    let mut best: usize = 0;
    let mut best_fitness: i64 = population[0].fitness();
    let mut i: usize = 1;
    while i < population.len()
        invariant
            1 <= i <= population@.len(),
            scores == fitnesses(population@),
            best < i,
            best_fitness == scores[best as int],
            forall|j: int| 0 <= j < i ==> !goal.better(#[trigger] scores[j], scores[best as int]),
            forall|j: int| 0 <= j < best ==> goal.better(scores[best as int], #[trigger] scores[j]),
        decreases population@.len() - i,
    {
        let fitness = population[i].fitness();
        if goal.is_better(fitness, best_fitness) {
            best = i;
            best_fitness = fitness;
        }
        i += 1;
    }
    best
}

/// A tournament draw over a population of `population_len` individuals: `size`
/// positions of the population, no position twice.
pub open spec fn is_draw(draw: Seq<usize>, population_len: nat, size: nat) -> bool {
    &&& draw.len() == size
    &&& forall|j: int| 0 <= j < draw.len() ==> (#[trigger] draw[j]) < population_len
    &&& forall|j: int, k: int| 0 <= j < k < draw.len() ==> draw[j] != draw[k]
}

/// The scores of the drawn individuals, in draw order.
pub open spec fn drawn_scores(scores: Seq<i64>, draw: Seq<usize>) -> Seq<i64> {
    Seq::new(draw.len(), |j: int| scores[draw[j] as int])
}

/// Individual `winner` wins the tournament held among `draw`: it is the drawn
/// individual with the best score, the earliest in draw order among equals.
pub open spec fn wins_tournament(
    scores: Seq<i64>,
    draw: Seq<usize>,
    goal: OptimizationGoal,
    winner: usize,
) -> bool {
    exists|k: int|
        is_first_best(drawn_scores(scores, draw), goal, k) && winner == #[trigger] draw[k]
}

/// A tournament has at most one winner.
pub proof fn tournament_winner_is_unique(
    scores: Seq<i64>,
    draw: Seq<usize>,
    goal: OptimizationGoal,
    a: usize,
    b: usize,
)
    requires
        wins_tournament(scores, draw, goal, a),
        wins_tournament(scores, draw, goal, b),
    ensures
        a == b,
{
    let drawn = drawn_scores(scores, draw);
    let ka = choose|k: int| is_first_best(drawn, goal, k) && a == #[trigger] draw[k];
    let kb = choose|k: int| is_first_best(drawn, goal, k) && b == #[trigger] draw[k];
    first_best_is_unique(drawn, goal, ka, kb);
}

/// Holds a tournament among the individuals that `draw` names and returns the
/// position in `population` of the winner. Of several equally good drawn
/// individuals the one drawn first wins.
pub fn tournament_winner<S: Solution>(
    population: &[S],
    draw: &Vec<usize>,
    goal: OptimizationGoal,
) -> (winner: usize)
    requires
        draw@.len() > 0,
        forall|j: int| 0 <= j < draw@.len() ==> (#[trigger] draw@[j]) < population@.len(),
    ensures
        winner < population@.len(),
        wins_tournament(fitnesses(population@), draw@, goal, winner),
{
    let ghost drawn = drawn_scores(fitnesses(population@), draw@);
    let mut best: usize = 0;
    let mut best_fitness: i64 = population[draw[0]].fitness();
    let mut j: usize = 1;
    while j < draw.len()
        invariant
            1 <= j <= draw@.len(),
            drawn == drawn_scores(fitnesses(population@), draw@),
            forall|k: int| 0 <= k < draw@.len() ==> (#[trigger] draw@[k]) < population@.len(),
            best < j,
            best_fitness == drawn[best as int],
            forall|k: int| 0 <= k < j ==> !goal.better(#[trigger] drawn[k], drawn[best as int]),
            forall|k: int| 0 <= k < best ==> goal.better(drawn[best as int], #[trigger] drawn[k]),
        decreases draw@.len() - j,
    {
        let fitness = population[draw[j]].fitness();
        if goal.is_better(fitness, best_fitness) {
            best = j;
            best_fitness = fitness;
        }
        j += 1;
    }
    draw[best]
}

} // verus!
