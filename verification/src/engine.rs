use crate::evaluation::{all_evaluated, evaluate_population, evaluate_population_in_parallel};
use crate::initializer::HybridInitializer;
use crate::operators::crossover::{
    cut_between, AsVectorSolution, CrossoverOperator, OnePoint, TwoPoint,
};
use crate::operators::mutation::MutationOperator;
use crate::operators::repair::{NoOpRepair, RepairOperator};
use crate::operators::selection::SelectionOperator;
use crate::problem::Problem;
use crate::random::{random_event, second_handle, thread_generator};
use crate::ranking::{best_index, fitnesses, is_first_best};
use crate::ratio::Ratio;
use crate::solution::Solution;
use crate::solver::{goes_on, is_run, is_turn, Metaheuristic};
use crate::state::AlgorithmState;
use crate::termination::TerminationCriteria;
use rand::rngs::ThreadRng;
use vstd::pervasive::cloned;
use vstd::prelude::*;

verus! {

/// The number of children that one generation of a population of `pop_size`
/// produces: two for each whole pair.
pub open spec fn brood_size(pop_size: nat) -> nat {
    2 * (pop_size / 2)
}

/// The count of evaluations after one more generation: `brood_size(pop_size)`
/// more than before, or the largest count that can be held where that is
/// less.
pub open spec fn count_after_step(count: nat, pop_size: nat) -> nat {
    if count + brood_size(pop_size) <= usize::MAX {
        count + brood_size(pop_size)
    } else {
        usize::MAX as nat
    }
}

/// The count of evaluations after `initialize` and `steps` generations.
pub open spec fn count_after_steps(pop_size: nat, steps: nat) -> nat
    decreases steps,
{
    if steps == 0 {
        pop_size
    } else {
        count_after_step(count_after_steps(pop_size, (steps - 1) as nat), pop_size)
    }
}

/// A generation has as many children as the population has individuals, less
/// the odd one: with an even `pop_size` exactly `pop_size`, with an odd one
/// `pop_size - 1`.
pub proof fn brood_drops_the_odd_one(pop_size: nat)
    ensures
        brood_size(pop_size) == pop_size - pop_size % 2,
        pop_size % 2 == 0 ==> brood_size(pop_size) == pop_size,
        pop_size % 2 == 1 ==> brood_size(pop_size) == pop_size - 1,
{
}

/// As long as the count can be held, `initialize` and `steps` generations have
/// made `pop_size + steps * (pop_size - pop_size % 2)` evaluations.
pub proof fn evaluations_add_up(pop_size: nat, steps: nat)
    requires
        pop_size + steps * (pop_size - pop_size % 2) <= usize::MAX,
    ensures
        count_after_steps(pop_size, steps) == pop_size + steps * (pop_size - pop_size % 2),
    decreases steps,
{
    let per_step = pop_size - pop_size % 2;
    brood_drops_the_odd_one(pop_size);
    if steps > 0 {
        assert(steps * per_step == (steps - 1) * per_step + per_step) by (nonlinear_arith);
        assert((steps - 1) * per_step >= 0) by (nonlinear_arith)
            requires
                steps >= 1,
                per_step >= 0,
        ;
        evaluations_add_up(pop_size, (steps - 1) as nat);
    } else {
        assert(steps * per_step == 0) by (nonlinear_arith)
            requires
                steps == 0,
        ;
    }
}

/// `best` is a clone of the best individual of `population`, the earliest of
/// several equally good ones, and has its score.
pub open spec fn is_best_of<P: Problem>(population: Seq<P::Solution>, best: P::Solution) -> bool {
    exists|k: int|
        {
            &&& #[trigger] is_first_best(fitnesses(population), P::GOAL, k)
            &&& cloned(population[k], best)
            &&& best.fitness_value() == population[k].fitness_value()
        }
}

/// No individual of a population is better than the best that was cloned from
/// it.
pub proof fn best_is_not_bettered<P: Problem>(
    population: Seq<P::Solution>,
    best: P::Solution,
    i: int,
)
    requires
        is_best_of::<P>(population, best),
        0 <= i < population.len(),
    ensures
        !P::GOAL.better(population[i].fitness_value(), best.fitness_value()),
{
    let k = choose|k: int|
        {
            &&& #[trigger] is_first_best(fitnesses(population), P::GOAL, k)
            &&& cloned(population[k], best)
            &&& best.fitness_value() == population[k].fitness_value()
        };
    assert(fitnesses(population)[i] == population[i].fitness_value());
    assert(fitnesses(population)[k] == population[k].fitness_value());
}

/// The setup of a genetic algorithm: what stays the same from one generation
/// to the next.
#[verifier::reject_recursive_types(P)]
pub struct Setup<'a, P: Problem, Sel, Cross, Mut, Rep> where
    P::Solution: 'a,
    Sel: SelectionOperator<P::Solution>,
    Cross: CrossoverOperator<P::Solution>,
    Mut: MutationOperator<P::Solution>,
    Rep: RepairOperator<P::Solution>,
 {
    /// The size of the population.
    pub pop_size: usize,
    /// The probability with which a pair of parents is crossed.
    pub crossover_rate: Ratio,
    /// The probability with which a child is mutated.
    pub mutation_rate: Ratio,
    /// The initializer that seeds the first population.
    pub initializer: HybridInitializer<'a, P>,
    /// The selection operator.
    pub selection: &'a Sel,
    /// The crossover operator.
    pub crossover: &'a Cross,
    /// The mutation operator.
    pub mutation: &'a Mut,
    /// The repair operator, if there is one.
    pub repair: Option<&'a Rep>,
    /// Whether the population is evaluated on several threads.
    pub parallel: bool,
}

impl<'a, P, Sel, Cross, Mut, Rep> Setup<'a, P, Sel, Cross, Mut, Rep> where
    P: Problem,
    P::Solution: 'a,
    Sel: SelectionOperator<P::Solution>,
    Cross: CrossoverOperator<P::Solution>,
    Mut: MutationOperator<P::Solution>,
    Rep: RepairOperator<P::Solution>,
 {
    /// The number of children that one generation produces: two for each
    /// whole pair in `pop_size`. With an odd `pop_size` that is one fewer than
    /// `pop_size`.
    pub open spec fn children_per_step(&self) -> nat {
        brood_size(self.pop_size as nat)
    }

    /// The rates are probabilities.
    pub open spec fn rates_are_probabilities(&self) -> bool {
        self.crossover_rate.is_probability() && self.mutation_rate.is_probability()
    }

    /// `children` are what the crossover stage makes of two parents: the
    /// children of the crossover operator, or, where the stage is skipped,
    /// clones of the parents. A rate of one never skips the stage and a rate
    /// of zero always does.
    pub open spec fn recombined(
        &self,
        parent1: P::Solution,
        parent2: P::Solution,
        children: (P::Solution, P::Solution),
    ) -> bool {
        ||| self.crossover_rate.numer() > 0 && self.crossover.crosses(parent1, parent2, children)
        ||| self.crossover_rate.numer() < self.crossover_rate.denom() && cloned(
            parent1,
            children.0,
        ) && cloned(parent2, children.1)
    }

    /// `after` is what the mutation stage makes of `before`: the mutated
    /// child, or, where the stage is skipped, the child itself. A rate of one
    /// never skips the stage and a rate of zero always does.
    pub open spec fn mutated(&self, before: P::Solution, after: P::Solution) -> bool {
        ||| self.mutation_rate.numer() > 0 && self.mutation.mutates(before, after)
        ||| self.mutation_rate.numer() < self.mutation_rate.denom() && after == before
    }

    /// `after` is what the repair stage makes of `before`: the repaired child,
    /// or, without a repair operator, the child itself.
    pub open spec fn repaired(&self, before: P::Solution, after: P::Solution) -> bool {
        match self.repair {
            Some(operator) => exists|changed: bool| #[trigger]
                operator.repairs(before, after, changed),
            None => after == before,
        }
    }

    /// `children` are a pair that the operators can breed from `population`:
    /// two selected parents, recombined, then each child mutated, then each
    /// child repaired.
    pub open spec fn bred_from(
        &self,
        population: Seq<P::Solution>,
        children: (P::Solution, P::Solution),
    ) -> bool {
        exists|
            parent1: P::Solution,
            parent2: P::Solution,
            crossed: (P::Solution, P::Solution),
            changed: (P::Solution, P::Solution),
        |
            {
                &&& population.contains(parent1)
                &&& population.contains(parent2)
                &&& self.selection.selects(population, P::GOAL, parent1)
                &&& self.selection.selects(population, P::GOAL, parent2)
                &&& #[trigger] self.recombined(parent1, parent2, crossed)
                &&& #[trigger] self.mutated(crossed.0, changed.0)
                &&& self.mutated(crossed.1, changed.1)
                &&& self.repaired(changed.0, children.0)
                &&& self.repaired(changed.1, children.1)
            }
    }

    /// `offspring` is a brood of `parents`: pair by pair it was bred from
    /// them, and it is as long as the generation is to be.
    pub open spec fn is_brood_of(
        &self,
        parents: Seq<P::Solution>,
        offspring: Seq<P::Solution>,
    ) -> bool {
        &&& offspring.len() == self.children_per_step()
        &&& forall|pair: int|
            0 <= pair < self.pop_size / 2 ==> #[trigger] self.bred_from(
                parents,
                (offspring[2 * pair], offspring[2 * pair + 1]),
            )
    }

    /// The selection operator can serve every generation: it admits a
    /// population of `pop_size` individuals and one of as many individuals as
    /// a generation has children. A population of fewer than two never breeds
    /// and asks nothing of the operator.
    pub open spec fn selection_fits(&self) -> bool {
        self.pop_size >= 2 ==> self.selection.admits(self.pop_size as nat)
            && self.selection.admits(self.children_per_step())
    }

    /// Any two individuals of `population` can be crossed, in either order
    /// and each with itself.
    pub open spec fn crossable(&self, population: Seq<P::Solution>) -> bool {
        forall|i: int, j: int|
            0 <= i < population.len() && 0 <= j < population.len() ==> self.crossover.accepts(
                #[trigger] population[i],
                #[trigger] population[j],
            )
    }

    /// Every population that the engine can come to hold is crossable: the
    /// evaluated form of every seeding is, and so is the evaluated form of
    /// every brood of a crossable population.
    pub open spec fn stays_crossable(&self, problem: &P) -> bool {
        &&& forall|seeded: Seq<P::Solution>, population: Seq<P::Solution>|
            #![trigger self.initializer.seeds(problem, self.pop_size as nat, seeded), all_evaluated(problem, seeded, population)]
            self.initializer.seeds(problem, self.pop_size as nat, seeded) && all_evaluated(
                problem,
                seeded,
                population,
            ) ==> self.crossable(population)
        &&& forall|parents: Seq<P::Solution>, brood: Seq<P::Solution>, population: Seq<P::Solution>|
            #![trigger self.is_brood_of(parents, brood), all_evaluated(problem, brood, population)]
            self.crossable(parents) && self.is_brood_of(parents, brood) && all_evaluated(
                problem,
                brood,
                population,
            ) ==> self.crossable(population)
    }

    /// A crossover operator that accepts every pair of parents keeps every
    /// population crossable.
    pub proof fn stays_crossable_where_all_are_accepted(&self, problem: &P)
        requires
            forall|parent1: P::Solution, parent2: P::Solution| #[trigger]
                self.crossover.accepts(parent1, parent2),
        ensures
            self.stays_crossable(problem),
    {
    }

    /// Breeds one pair of children from a population: selects two parents,
    /// crosses them with the crossover rate or else clones them, mutates each
    /// child with the mutation rate, and repairs each child if there is a
    /// repair operator.
    fn breed(&self, rng: &mut ThreadRng, population: &[P::Solution]) -> (children: (
        P::Solution,
        P::Solution,
    ))
        requires
            self.rates_are_probabilities(),
            self.selection.admits(population@.len()),
            self.crossable(population@),
        ensures
            self.bred_from(population@, children),
    {
        let (parent1, parent2) = self.selection.select(rng, population, P::GOAL);
        proof {
            let i = choose|i: int| 0 <= i < population@.len() && population@[i] == *parent1;
            let j = choose|j: int| 0 <= j < population@.len() && population@[j] == *parent2;
            assert(self.crossover.accepts(population@[i], population@[j]));
        }
        let crossed = if random_event(rng, self.crossover_rate) {
            self.crossover.crossover(rng, parent1, parent2)
        } else {
            (parent1.clone(), parent2.clone())
        };
        let ghost after_crossover = crossed;
        let (mut child1, mut child2) = crossed;
        if random_event(rng, self.mutation_rate) {
            self.mutation.mutate(rng, &mut child1);
        }
        if random_event(rng, self.mutation_rate) {
            self.mutation.mutate(rng, &mut child2);
        }
        let ghost after_mutation = (child1, child2);
        if let Some(repair_operator) = self.repair {
            repair_operator.repair(&mut child1);
            repair_operator.repair(&mut child2);
        }
        proof {
            assert(self.recombined(*parent1, *parent2, after_crossover));
            assert(self.mutated(after_crossover.0, after_mutation.0));
        }
        (child1, child2)
    }
}

impl<'a, P, Sel, Cross, Mut, Rep> Setup<'a, P, Sel, Cross, Mut, Rep> where
    P: Problem + Sync,
    P::Solution: 'a,
    Sel: SelectionOperator<P::Solution>,
    Cross: CrossoverOperator<P::Solution>,
    Mut: MutationOperator<P::Solution>,
    Rep: RepairOperator<P::Solution>,
 {
    /// Evaluates a population in the chosen mode and hands back a clone of
    /// its best individual, or nothing for an empty population.
    fn assess(&self, problem: &P, population: &mut Vec<P::Solution>) -> (best: Option<P::Solution>)
        ensures
            all_evaluated(problem, old(population)@, final(population)@),
            best.is_some() == (final(population)@.len() > 0),
            best matches Some(b) ==> is_best_of::<P>(final(population)@, b),
    {
        if self.parallel {
            evaluate_population_in_parallel(problem, population.as_mut_slice());
        } else {
            evaluate_population(problem, population.as_mut_slice());
        }
        if population.len() == 0 {
            None
        } else {
            let k = best_index(population.as_slice(), P::GOAL);
            let best = population[k].clone();
            proof {
                population@[k as int].clone_keeps_fitness(&best);
            }
            Some(best)
        }
    }
}

impl<'a, P, Sel, Cross, Mut, Rep> Setup<'a, P, Sel, Cross, Mut, Rep> where
    P: Problem,
    P::Solution: 'a + AsVectorSolution,
    Sel: SelectionOperator<P::Solution>,
    Cross: CrossoverOperator<P::Solution>,
    Mut: MutationOperator<P::Solution>,
    Rep: RepairOperator<P::Solution>,
 {
    /// The children of a crossover have as many genes as the parents, the
    /// first as the first and the second as the second.
    pub open spec fn crossover_keeps_gene_counts(&self) -> bool {
        forall|parent1: P::Solution, parent2: P::Solution, children: (P::Solution, P::Solution)|
            self.crossover.accepts(parent1, parent2) && #[trigger] self.crossover.crosses(
                parent1,
                parent2,
                children,
            ) ==> children.0.gene_seq().len() == parent1.gene_seq().len()
                && children.1.gene_seq().len() == parent2.gene_seq().len()
    }

    /// Mutation, repair and evaluation leave the number of genes as it is.
    pub open spec fn stages_keep_gene_counts(&self, problem: &P) -> bool {
        &&& forall|before: P::Solution, after: P::Solution| #[trigger]
            self.mutation.mutates(before, after) ==> after.gene_seq().len()
                == before.gene_seq().len()
        &&& forall|before: P::Solution, after: P::Solution, changed: bool|
            self.repair is Some && #[trigger] self.repair->0.repairs(before, after, changed)
                ==> after.gene_seq().len() == before.gene_seq().len()
        &&& forall|before: P::Solution, after: P::Solution| #[trigger]
            problem.evaluated(before, after) ==> after.gene_seq().len()
                == before.gene_seq().len()
    }

    /// Whether two parents can be crossed depends on nothing but their
    /// numbers of genes, and two parents of `genes` genes can be crossed.
    pub open spec fn accepts_by_gene_counts(&self, genes: nat) -> bool {
        &&& forall|parent1: P::Solution, parent2: P::Solution, other1: P::Solution, other2: P::Solution|
            #![trigger self.crossover.accepts(parent1, parent2), self.crossover.accepts(other1, other2)]
            other1.gene_seq().len() == parent1.gene_seq().len() && other2.gene_seq().len()
                == parent2.gene_seq().len() ==> self.crossover.accepts(parent1, parent2)
                == self.crossover.accepts(other1, other2)
        &&& forall|parent1: P::Solution, parent2: P::Solution|
            parent1.gene_seq().len() == genes && parent2.gene_seq().len() == genes
                ==> #[trigger] self.crossover.accepts(parent1, parent2)
    }

    /// Every heuristic generates solutions of `genes` genes.
    pub open spec fn seeds_have(&self, problem: &P, genes: nat) -> bool {
        forall|h: int, solution: P::Solution|
            0 <= h < self.initializer.heuristics@.len()
                && #[trigger] self.initializer.heuristics@[h].0.generates(problem, solution)
                ==> solution.gene_seq().len() == genes
    }

    /// Where the heuristics generate solutions of one number of genes, the
    /// operators and the evaluation keep the number of genes, and the
    /// crossover operator looks at nothing else and accepts parents of that
    /// number, every population that the engine can come to hold is
    /// crossable.
    pub proof fn uniform_genes_stay_crossable(&self, problem: &P, genes: nat)
        requires
            self.initializer.can_seed(),
            self.seeds_have(problem, genes),
            self.crossover_keeps_gene_counts(),
            self.stages_keep_gene_counts(problem),
            self.accepts_by_gene_counts(genes),
        ensures
            self.stays_crossable(problem),
    {
        assert forall|seeded: Seq<P::Solution>, population: Seq<P::Solution>|
            self.initializer.seeds(problem, self.pop_size as nat, seeded) && all_evaluated(
                problem,
                seeded,
                population,
            ) implies self.crossable(population) by {
            assert forall|i: int| 0 <= i < population.len() implies (#[trigger] population[i]).gene_seq().len()
                == genes by {
                let h = self.initializer.seeding_comes_from_heuristics(
                    problem,
                    self.pop_size as nat,
                    seeded,
                    i,
                );
                let base = choose|base: P::Solution|
                    {
                        &&& #[trigger] self.initializer.heuristics@[h].0.generates(problem, base)
                        &&& seeded[i] == base || cloned(base, seeded[i])
                    };
                if seeded[i] != base {
                    base.clone_keeps_genes(&seeded[i]);
                }
                assert(problem.evaluated(seeded[i], population[i]));
            }
        }
        assert forall|
            parents: Seq<P::Solution>,
            brood: Seq<P::Solution>,
            population: Seq<P::Solution>,
        |
            self.crossable(parents) && self.is_brood_of(parents, brood) && all_evaluated(
                problem,
                brood,
                population,
            ) implies self.crossable(population) by {
            assert forall|i: int, j: int|
                0 <= i < population.len() && 0 <= j < population.len()
                    implies self.crossover.accepts(
                #[trigger] population[i],
                #[trigger] population[j],
            ) by {
                let a = self.parent_of_same_length(problem, parents, brood, population, i);
                let b = self.parent_of_same_length(problem, parents, brood, population, j);
                assert(self.crossover.accepts(parents[a], parents[b]));
            }
        }
    }

    /// An individual of the evaluated brood has as many genes as one of the
    /// parents.
    proof fn parent_of_same_length(
        &self,
        problem: &P,
        parents: Seq<P::Solution>,
        brood: Seq<P::Solution>,
        population: Seq<P::Solution>,
        i: int,
    ) -> (a: int)
        requires
            self.crossover_keeps_gene_counts(),
            self.stages_keep_gene_counts(problem),
            self.crossable(parents),
            self.is_brood_of(parents, brood),
            all_evaluated(problem, brood, population),
            0 <= i < population.len(),
        ensures
            0 <= a < parents.len(),
            population[i].gene_seq().len() == parents[a].gene_seq().len(),
    {
        let pair = i / 2;
        let children = (brood[2 * pair], brood[2 * pair + 1]);
        assert(self.bred_from(parents, children));
        let (parent1, parent2, crossed, changed) = choose|
            parent1: P::Solution,
            parent2: P::Solution,
            crossed: (P::Solution, P::Solution),
            changed: (P::Solution, P::Solution),
        |
            {
                &&& parents.contains(parent1)
                &&& parents.contains(parent2)
                &&& self.selection.selects(parents, P::GOAL, parent1)
                &&& self.selection.selects(parents, P::GOAL, parent2)
                &&& #[trigger] self.recombined(parent1, parent2, crossed)
                &&& #[trigger] self.mutated(crossed.0, changed.0)
                &&& self.mutated(crossed.1, changed.1)
                &&& self.repaired(changed.0, children.0)
                &&& self.repaired(changed.1, children.1)
            };
        let a1 = choose|a: int| 0 <= a < parents.len() && parents[a] == parent1;
        let a2 = choose|a: int| 0 <= a < parents.len() && parents[a] == parent2;
        assert(self.crossover.accepts(parents[a1], parents[a2]));
        if !self.crossover.crosses(parent1, parent2, crossed) {
            parent1.clone_keeps_genes(&crossed.0);
            parent2.clone_keeps_genes(&crossed.1);
        }
        assert(problem.evaluated(brood[i], population[i]));
        if i % 2 == 0 {
            a1
        } else {
            a2
        }
    }
}

impl<'a, P, Sel, Mut, Rep> Setup<'a, P, Sel, OnePoint, Mut, Rep> where
    P: Problem,
    P::Solution: 'a + AsVectorSolution,
    Sel: SelectionOperator<P::Solution>,
    Mut: MutationOperator<P::Solution>,
    Rep: RepairOperator<P::Solution>,
 {
    /// With one-point crossover every population that the engine can come to
    /// hold is crossable, where the heuristics generate solutions of one
    /// number of genes and mutation, repair and evaluation keep that number.
    pub proof fn one_point_stays_crossable(&self, problem: &P, genes: nat)
        requires
            self.initializer.can_seed(),
            self.seeds_have(problem, genes),
            self.stages_keep_gene_counts(problem),
        ensures
            self.stays_crossable(problem),
    {
        assert forall|parent1: P::Solution, parent2: P::Solution, children: (P::Solution, P::Solution)|
            self.crossover.accepts(parent1, parent2) && #[trigger] self.crossover.crosses(
                parent1,
                parent2,
                children,
            ) implies children.0.gene_seq().len() == parent1.gene_seq().len()
            && children.1.gene_seq().len() == parent2.gene_seq().len() by {
            if parent1.gene_seq().len() < 2 {
                OnePoint::short_parents_are_cloned(parent1, parent2, children);
            }
        }
        self.uniform_genes_stay_crossable(problem, genes);
    }
}

impl<'a, P, Sel, Mut, Rep> Setup<'a, P, Sel, TwoPoint, Mut, Rep> where
    P: Problem,
    P::Solution: 'a + AsVectorSolution,
    Sel: SelectionOperator<P::Solution>,
    Mut: MutationOperator<P::Solution>,
    Rep: RepairOperator<P::Solution>,
 {
    /// With two-point crossover every population that the engine can come to
    /// hold is crossable, where the heuristics generate solutions of one
    /// number of genes and mutation, repair and evaluation keep that number.
    pub proof fn two_point_stays_crossable(&self, problem: &P, genes: nat)
        requires
            self.initializer.can_seed(),
            self.seeds_have(problem, genes),
            self.stages_keep_gene_counts(problem),
        ensures
            self.stays_crossable(problem),
    {
        assert forall|parent1: P::Solution, parent2: P::Solution, children: (P::Solution, P::Solution)|
            self.crossover.accepts(parent1, parent2) && #[trigger] self.crossover.crosses(
                parent1,
                parent2,
                children,
            ) implies children.0.gene_seq().len() == parent1.gene_seq().len()
            && children.1.gene_seq().len() == parent2.gene_seq().len() by {
            if parent1.gene_seq().len() < 3 {
                TwoPoint::short_parents_are_cloned(parent1, parent2, children);
            } else {
                let (point1, point2) = choose|point1: int, point2: int|
                    {
                        &&& 1 <= point1 < parent1.gene_seq().len() - 1
                        &&& point1 <= point2 < parent1.gene_seq().len()
                        &&& #[trigger] cut_between(parent1, parent2, point1, point2, children)
                    };
                if point1 == point2 {
                    parent1.clone_keeps_genes(&children.0);
                    parent2.clone_keeps_genes(&children.1);
                }
            }
        }
        self.uniform_genes_stay_crossable(problem, genes);
    }
}

/// A generational genetic algorithm. Every generation replaces the whole
/// population by children that selection, crossover, mutation and repair make
/// from it; no individual survives unless it is selected and cloned through.
#[verifier::reject_recursive_types(P)]
pub struct GeneticAlgorithm<'a, P: Problem, Sel, Cross, Mut, Rep = NoOpRepair> where
    P::Solution: 'a,
    Sel: SelectionOperator<P::Solution>,
    Cross: CrossoverOperator<P::Solution>,
    Mut: MutationOperator<P::Solution>,
    Rep: RepairOperator<P::Solution>,
 {
    setup: Setup<'a, P, Sel, Cross, Mut, Rep>,
    population: Vec<P::Solution>,
    rng: ThreadRng,
}

impl<'a, P, Sel, Cross, Mut, Rep> GeneticAlgorithm<'a, P, Sel, Cross, Mut, Rep> where
    P: Problem,
    P::Solution: 'a,
    Sel: SelectionOperator<P::Solution>,
    Cross: CrossoverOperator<P::Solution>,
    Mut: MutationOperator<P::Solution>,
    Rep: RepairOperator<P::Solution>,
 {
    #[verifier::type_invariant]
    spec fn well_formed(self) -> bool {
        self.setup.rates_are_probabilities()
    }

    /// The setup of the engine.
    pub closed spec fn setup(&self) -> Setup<'a, P, Sel, Cross, Mut, Rep> {
        self.setup
    }

    /// The configured size of the population.
    pub open spec fn pop_size(&self) -> nat {
        self.setup().pop_size as nat
    }

    /// The current population.
    pub closed spec fn population(&self) -> Seq<P::Solution> {
        self.population@
    }

    /// `other` is set up as `self` is: same size, rates, initializer,
    /// operators and evaluation mode.
    pub open spec fn same_setup(&self, other: &Self) -> bool {
        other.setup() == self.setup()
    }

    /// Makes a genetic algorithm. The rates are probabilities. The population
    /// is empty until `initialize` has seeded it, and it is evaluated on one
    /// thread unless `with_parallel_evaluation` says otherwise.
    pub fn new(
        pop_size: usize,
        crossover_rate: Ratio,
        mutation_rate: Ratio,
        initializer: HybridInitializer<'a, P>,
        selection: &'a Sel,
        crossover: &'a Cross,
        mutation: &'a Mut,
        repair: Option<&'a Rep>,
    ) -> (engine: Self)
        requires
            crossover_rate.is_probability(),
            mutation_rate.is_probability(),
        ensures
            engine.setup() == (Setup {
                pop_size,
                crossover_rate,
                mutation_rate,
                initializer,
                selection,
                crossover,
                mutation,
                repair,
                parallel: false,
            }),
            engine.population().len() == 0,
    {
        Self {
            setup: Setup {
                pop_size,
                crossover_rate,
                mutation_rate,
                initializer,
                selection,
                crossover,
                mutation,
                repair,
                parallel: false,
            },
            population: Vec::new(),
            rng: thread_generator(),
        }
    }

    /// Chooses between evaluation on one thread and evaluation on several.
    /// The choice changes how long a generation takes, never its outcome.
    pub fn with_parallel_evaluation(self, parallel: bool) -> (engine: Self)
        ensures
            engine.setup() == (Setup { parallel, ..self.setup() }),
            engine.population() == self.population(),
    {
        proof {
            use_type_invariant(&self);
        }
        let mut engine = self;
        engine.setup.parallel = parallel;
        engine
    }

    /// Reads the configured size of the population.
    pub fn population_size(&self) -> (size: usize)
        ensures
            size == self.pop_size(),
    {
        self.setup.pop_size
    }

    /// Reads the current population.
    pub fn current_population(&self) -> (population: &[P::Solution])
        ensures
            population@ == self.population(),
    {
        self.population.as_slice()
    }
}

impl<'a, P, Sel, Cross, Mut, Rep> Metaheuristic<P> for GeneticAlgorithm<
    'a,
    P,
    Sel,
    Cross,
    Mut,
    Rep,
> where
    P: Problem + Sync,
    P::Solution: 'a,
    Sel: SelectionOperator<P::Solution>,
    Cross: CrossoverOperator<P::Solution>,
    Mut: MutationOperator<P::Solution>,
    Rep: RepairOperator<P::Solution>,
 {
    /// The population is not to be empty, the initializer has a heuristic to
    /// draw from, the selection operator can serve every generation, and
    /// every population that the engine can come to hold is crossable.
    open spec fn configured(&self, problem: &P) -> bool {
        &&& self.pop_size() > 0
        &&& self.setup().initializer.can_seed()
        &&& self.setup().selection_fits()
        &&& self.setup().stays_crossable(problem)
    }

    /// The population is that of `initialize`, of `pop_size` individuals, or
    /// that of a step, of as many individuals as a generation has children.
    /// It is crossable and stays so, and the selection operator can serve
    /// every generation.
    open spec fn ready(&self, problem: &P) -> bool {
        &&& self.population().len() == self.pop_size() || self.population().len()
            == self.setup().children_per_step()
        &&& self.setup().selection_fits()
        &&& self.setup().crossable(self.population())
        &&& self.setup().stays_crossable(problem)
    }

    /// `initialize` leaves the setup as it is, seeds a population of
    /// `pop_size` individuals and evaluates every one of them. The first state
    /// has counted no generation yet and one evaluation for each individual,
    /// and its best solution is a clone of the best individual.
    open spec fn starts_with(
        &self,
        problem: &P,
        started: &Self,
        state: AlgorithmState<P::Solution>,
    ) -> bool {
        &&& self.same_setup(started)
        &&& started.population().len() == self.pop_size()
        &&& exists|seeded: Seq<P::Solution>|
            #![trigger all_evaluated(problem, seeded, started.population())]
            self.setup().initializer.seeds(problem, self.pop_size(), seeded) && all_evaluated(
                problem,
                seeded,
                started.population(),
            )
        &&& is_best_of::<P>(started.population(), state.best_solution)
        &&& state.iteration_count == 0
        &&& state.evaluations_count == count_after_steps(self.pop_size(), 0)
    }

    /// `step` leaves the setup as it is and replaces the population by the
    /// evaluated brood of the population before it. The brood is counted, and
    /// the candidate is a clone of its best individual; there is none only
    /// when the brood is empty.
    open spec fn advances(
        &self,
        problem: &P,
        state: AlgorithmState<P::Solution>,
        next: &Self,
        next_state: AlgorithmState<P::Solution>,
        candidate: Option<P::Solution>,
    ) -> bool {
        &&& self.same_setup(next)
        &&& next.population().len() == self.setup().children_per_step()
        &&& exists|brood: Seq<P::Solution>|
            #![trigger all_evaluated(problem, brood, next.population())]
            self.setup().is_brood_of(self.population(), brood) && all_evaluated(
                problem,
                brood,
                next.population(),
            )
        &&& next_state.evaluations_count == count_after_step(
            state.evaluations_count as nat,
            self.pop_size(),
        )
        &&& candidate.is_some() == (self.pop_size() >= 2)
        &&& candidate matches Some(best) ==> is_best_of::<P>(next.population(), best)
    }

    /// Seeds a population of `pop_size` individuals, evaluates every one of
    /// them, and starts the record of the run with a clone of the best as the
    /// best solution so far. What the call promises is `starts_with`.
    fn initialize(&mut self, problem: &P) -> (state: AlgorithmState<P::Solution>) {
        proof {
            use_type_invariant(&*self);
        }
        let mut initial_population = self.setup.initializer.initialize_population(
            problem,
            self.setup.pop_size,
        );
        let ghost seeded = initial_population@;
        let best = self.setup.assess(problem, &mut initial_population);
        self.population = initial_population;
        assert(all_evaluated(problem, seeded, self.population()));
        AlgorithmState {
            iteration_count: 0,
            evaluations_count: self.setup.pop_size,
            start_time: crate::clock::now(),
            best_solution: best.unwrap(),
        }
    }

    /// Breeds one generation: `pop_size / 2` pairs of children from the
    /// current population, so that an odd `pop_size` gives one child fewer
    /// than `pop_size`. The children are evaluated and counted, and they
    /// replace the population as a whole. The result is a clone of the best
    /// child, and nothing only when there is no child at all. The count of
    /// evaluations stops at the largest number that it can hold. What the
    /// call promises is `advances`.
    fn step(&mut self, problem: &P, state: &mut AlgorithmState<P::Solution>) -> (candidate: Option<
        P::Solution,
    >) {
        proof {
            use_type_invariant(&*self);
        }
        let mut rng = second_handle(&self.rng);
        let pairs = self.setup.pop_size / 2;
        let mut children: Vec<P::Solution> = Vec::new();
        let mut pair: usize = 0;
        while pair < pairs
            invariant
                pairs == self.setup.pop_size / 2,
                pair <= pairs,
                *self == *old(self),
                self.ready(problem),
                self.setup.rates_are_probabilities(),
                children@.len() == 2 * pair,
                forall|q: int|
                    0 <= q < pair ==> #[trigger] self.setup.bred_from(
                        self.population(),
                        (children@[2 * q], children@[2 * q + 1]),
                    ),
            decreases pairs - pair,
        {
            let (child1, child2) = self.setup.breed(&mut rng, self.population.as_slice());
            children.push(child1);
            children.push(child2);
            pair += 1;
        }
        let ghost brood = children@;
        let candidate = self.setup.assess(problem, &mut children);
        state.evaluations_count = state.evaluations_count.saturating_add(children.len());
        assert(self.setup.is_brood_of(self.population(), brood));
        self.population = children;
        assert(all_evaluated(problem, brood, self.population()));
        candidate
    }
}

impl<'a, P, Sel, Cross, Mut, Rep> GeneticAlgorithm<'a, P, Sel, Cross, Mut, Rep> where
    P: Problem + Sync,
    P::Solution: 'a,
    Sel: SelectionOperator<P::Solution>,
    Cross: CrossoverOperator<P::Solution>,
    Mut: MutationOperator<P::Solution>,
    Rep: RepairOperator<P::Solution>,
 {
    /// In every run that `initialize` began, after `generations` generations
    /// the setup is still that of the beginning, the population has
    /// `pop_size` individuals before the first generation and
    /// `pop_size - pop_size % 2` after every one, and the evaluations that
    /// have been counted are `pop_size + generations * (pop_size - pop_size %
    /// 2)`, as long as the counter can hold that number.
    pub proof fn generations_add_up<T: TerminationCriteria<P::Solution>>(
        configured: Self,
        problem: &P,
        termination: &T,
        strategies: Seq<Self>,
        states: Seq<AlgorithmState<P::Solution>>,
        generations: nat,
    )
        requires
            is_run(problem, termination, strategies, states),
            configured.starts_with(problem, &strategies[0], states[0]),
            generations < states.len(),
        ensures
            configured.same_setup(&strategies[generations as int]),
            strategies[generations as int].population().len() == if generations == 0 {
                configured.pop_size()
            } else {
                (configured.pop_size() - configured.pop_size() % 2) as nat
            },
            configured.pop_size() % 2 == 0 ==> strategies[generations as int].population().len()
                == configured.pop_size(),
            states[generations as int].evaluations_count == count_after_steps(
                configured.pop_size(),
                generations,
            ),
            configured.pop_size() + generations * (configured.pop_size() - configured.pop_size()
                % 2) <= usize::MAX ==> states[generations as int].evaluations_count
                == configured.pop_size() + generations * (configured.pop_size()
                - configured.pop_size() % 2),
            states[generations as int].iteration_count == generations,
        decreases generations,
    {
        let pop_size = configured.pop_size();
        let per_step = pop_size - pop_size % 2;
        brood_drops_the_odd_one(pop_size);
        if generations > 0 {
            let before = (generations - 1) as nat;
            Self::generations_add_up(configured, problem, termination, strategies, states, before);
            assert(goes_on(termination, states[before as int]) && is_turn(
                problem,
                strategies[before as int],
                states[before as int],
                strategies[before as int + 1],
                states[before as int + 1],
            ));
            assert(generations * per_step == before * per_step + per_step) by (nonlinear_arith)
                requires
                    generations == before + 1,
            ;
            assert(before * per_step >= 0) by (nonlinear_arith)
                requires
                    per_step >= 0,
            ;
            if pop_size + generations * per_step <= usize::MAX {
                evaluations_add_up(pop_size, generations);
            }
        } else {
            assert(generations * per_step == 0) by (nonlinear_arith)
                requires
                    generations == 0,
            ;
        }
    }
}

} // verus!
