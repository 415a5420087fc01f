use crate::problem::Problem;
use crate::ratio::Ratio;
use vstd::pervasive::cloned;
use vstd::prelude::*;

verus! {

/// A way of producing a starting solution for a problem.
pub trait InitialSolutionHeuristic<P: Problem> {
    /// What the heuristic promises of a solution that `generate` returns. A
    /// heuristic that promises nothing accepts every solution.
    open spec fn generates(&self, problem: &P, solution: P::Solution) -> bool {
        true
    }

    /// The heuristic gives the same solution every time it is asked.
    open spec fn deterministic(&self) -> bool {
        false
    }

    /// Produces a starting solution.
    fn generate(&self, problem: &P) -> (solution: P::Solution)
        ensures
            self.generates(problem, solution),
    ;

    /// Tells whether the heuristic gives the same solution every time. The
    /// initializer asks a deterministic heuristic once and clones the answer.
    fn is_deterministic(&self) -> (flag: bool)
        ensures
            flag == self.deterministic(),
    ;
}

/// Seeds a population from several heuristics, each with a weight that says
/// which share of the population it is to provide.
///
/// The weights are independent of each other: they need not add up to one.
/// What they provide beyond the population size is dropped, and what they
/// leave open is filled by the first heuristic.
#[verifier::reject_recursive_types(P)]
pub struct HybridInitializer<'a, P: Problem> {
    /// The heuristics in the order in which they fill the population, each
    /// with its weight.
    pub heuristics: Vec<(Box<dyn InitialSolutionHeuristic<P> + 'a>, Ratio)>,
}

impl<'a, P: Problem> HybridInitializer<'a, P> {
    /// The number of individuals that heuristic `h` is asked for: its weight
    /// times the population size, rounded to the nearest integer.
    pub open spec fn share(&self, h: int, pop_size: nat) -> nat {
        self.heuristics@[h].1.share_of(pop_size)
    }

    /// The number of individuals that the first `h` heuristics are asked for
    /// together: the sum of their shares.
    pub open spec fn asked(&self, h: int, pop_size: nat) -> nat
        decreases h,
    {
        if h <= 0 {
            0
        } else {
            self.asked(h - 1, pop_size) + self.share(h - 1, pop_size)
        }
    }

    /// The number of individuals in the population once the first `h`
    /// heuristics have had their turn: each adds its share as long as there is
    /// room, and fills the population where its share is more than the room.
    pub open spec fn filled(&self, h: int, pop_size: nat) -> nat
        decreases h,
    {
        if h <= 0 {
            0
        } else if self.filled(h - 1, pop_size) + self.share(h - 1, pop_size) <= pop_size {
            self.filled(h - 1, pop_size) + self.share(h - 1, pop_size)
        } else {
            pop_size
        }
    }

    /// The individuals at the positions from `low` up to `high` come from
    /// heuristic `h`: clones of one solution that it generated if it is
    /// deterministic, solutions that it generated one by one if it is not.
    pub open spec fn block_seeded(
        &self,
        problem: &P,
        h: int,
        low: int,
        high: int,
        population: Seq<P::Solution>,
    ) -> bool {
        if self.heuristics@[h].0.deterministic() {
            low < high ==> exists|base: P::Solution|
                {
                    &&& #[trigger] self.heuristics@[h].0.generates(problem, base)
                    &&& forall|i: int| low <= i < high ==> cloned(base, #[trigger] population[i])
                }
        } else {
            forall|i: int|
                low <= i < high ==> self.heuristics@[h].0.generates(
                    problem,
                    #[trigger] population[i],
                )
        }
    }

    /// `population` is a seeding of `pop_size` individuals: every heuristic
    /// has provided its share in turn, as far as there was room, and the first
    /// heuristic has generated, one by one, the individuals that were still
    /// missing after the last.
    pub open spec fn seeds(&self, problem: &P, pop_size: nat, population: Seq<P::Solution>) -> bool {
        &&& population.len() == pop_size
        &&& forall|h: int|
            0 <= h < self.heuristics@.len() ==> #[trigger] self.block_seeded(
                problem,
                h,
                self.filled(h, pop_size) as int,
                self.filled(h + 1, pop_size) as int,
                population,
            )
        &&& forall|i: int|
            self.filled(self.heuristics@.len() as int, pop_size) <= i < pop_size
                ==> self.heuristics@[0].0.generates(problem, #[trigger] population[i])
    }

    /// A population can be seeded: there is a heuristic to draw from.
    pub open spec fn can_seed(&self) -> bool {
        self.heuristics@.len() > 0
    }

    /// Makes an initializer from heuristics and their weights.
    #[must_use]
    pub fn new(heuristics: Vec<(Box<dyn InitialSolutionHeuristic<P> + 'a>, Ratio)>) -> (initializer:
        Self)
        ensures
            initializer.heuristics == heuristics,
    {
        Self { heuristics }
    }

    /// Tells whether a population can be seeded: not without any heuristic,
    /// whatever its size.
    pub fn is_usable(&self) -> (usable: bool)
        ensures
            usable == self.can_seed(),
    {
        self.heuristics.len() > 0
    }

    /// The number of filled positions never exceeds the population size and
    /// never shrinks from one heuristic to the next.
    pub proof fn filled_is_monotonic(&self, h: int, pop_size: nat)
        requires
            0 <= h,
        ensures
            self.filled(h, pop_size) <= self.filled(h + 1, pop_size) <= pop_size,
        decreases h,
    {
        if h > 0 {
            self.filled_is_monotonic(h - 1, pop_size);
        }
    }

    /// The heuristics together provide what they are asked for, up to the
    /// population size: what they are asked for beyond it is dropped.
    pub proof fn filled_is_asked_up_to_capacity(&self, h: int, pop_size: nat)
        requires
            0 <= h,
        ensures
            self.filled(h, pop_size) == if self.asked(h, pop_size) <= pop_size {
                self.asked(h, pop_size)
            } else {
                pop_size
            },
        decreases h,
    {
        if h > 0 {
            self.filled_is_asked_up_to_capacity(h - 1, pop_size);
        }
    }

    /// `solution` is what heuristic `h` generated, or a clone of it.
    pub open spec fn comes_from(&self, problem: &P, h: int, solution: P::Solution) -> bool {
        &&& 0 <= h < self.heuristics@.len()
        &&& exists|base: P::Solution|
            {
                &&& #[trigger] self.heuristics@[h].0.generates(problem, base)
                &&& solution == base || cloned(base, solution)
            }
    }

    /// Every individual of a seeding is what one of the heuristics generated,
    /// or a clone of it.
    pub proof fn seeding_comes_from_heuristics(
        &self,
        problem: &P,
        pop_size: nat,
        population: Seq<P::Solution>,
        i: int,
    ) -> (h: int)
        requires
            self.can_seed(),
            self.seeds(problem, pop_size, population),
            0 <= i < pop_size,
        ensures
            self.comes_from(problem, h, population[i]),
    {
        let count = self.heuristics@.len() as int;
        if i >= self.filled(count, pop_size) {
            assert(self.heuristics@[0].0.generates(problem, population[i]));
            0
        } else {
            let h = self.turn_of(i, count, pop_size);
            assert(self.block_seeded(
                problem,
                h,
                self.filled(h, pop_size) as int,
                self.filled(h + 1, pop_size) as int,
                population,
            ));
            if self.heuristics@[h].0.deterministic() {
                let base = choose|base: P::Solution|
                    {
                        &&& #[trigger] self.heuristics@[h].0.generates(problem, base)
                        &&& forall|k: int|
                            self.filled(h, pop_size) <= k < self.filled(h + 1, pop_size) ==> cloned(
                                base,
                                #[trigger] population[k],
                            )
                    };
                assert(cloned(base, population[i]));
            } else {
                assert(self.heuristics@[h].0.generates(problem, population[i]));
            }
            h
        }
    }

    /// The heuristic in whose turn position `i` was filled, among the first
    /// `h` heuristics.
    proof fn turn_of(&self, i: int, h: int, pop_size: nat) -> (turn: int)
        requires
            0 <= i < self.filled(h, pop_size),
            0 <= h,
        ensures
            0 <= turn < h,
            self.filled(turn, pop_size) <= i < self.filled(turn + 1, pop_size),
        decreases h,
    {
        if i >= self.filled(h - 1, pop_size) {
            h - 1
        } else {
            self.turn_of(i, h - 1, pop_size)
        }
    }

    /// Seeds a population of `pop_size` individuals.
    ///
    /// Each heuristic in turn provides its share, the rounded product of its
    /// weight and `pop_size`, but never more than there is room for. A
    /// deterministic heuristic is asked once and its solution is cloned; any
    /// other is asked once for each individual. The first heuristic then
    /// generates whatever is still missing. With no heuristic at all there is
    /// nothing to draw from, and no population can be asked for.
    pub fn initialize_population(&self, problem: &P, pop_size: usize) -> (population: Vec<
        P::Solution,
    >)
        requires
            self.can_seed(),
        ensures
            self.seeds(problem, pop_size as nat, population@),
    {
        let mut population: Vec<P::Solution> = Vec::new();
        let mut h: usize = 0;
        while h < self.heuristics.len()
            invariant
                h <= self.heuristics@.len(),
                population@.len() == self.filled(h as int, pop_size as nat),
                population@.len() <= pop_size,
                forall|g: int|
                    0 <= g < h ==> #[trigger] self.block_seeded(
                        problem,
                        g,
                        self.filled(g, pop_size as nat) as int,
                        self.filled(g + 1, pop_size as nat) as int,
                        population@,
                    ),
            decreases self.heuristics@.len() - h,
        {
            let ghost before = population@;
            let share = self.heuristics[h].1.rounded_share(pop_size);
            let room = pop_size - population.len();
            let count: usize = if share >= room as u128 {
                room
            } else {
                share as usize
            };
            if share != 0 {
                if self.heuristics[h].0.is_deterministic() {
                    let base = self.heuristics[h].0.generate(problem);
                    push_clones(&mut population, &base, count);
                } else {
                    push_generated(&mut population, &self.heuristics[h].0, problem, count);
                }
            }
            proof {
                assert forall|g: int| 0 <= g < h implies #[trigger] self.block_seeded(
                    problem,
                    g,
                    self.filled(g, pop_size as nat) as int,
                    self.filled(g + 1, pop_size as nat) as int,
                    population@,
                ) by {
                    self.filled_reaches(g + 1, h as int, pop_size as nat);
                    self.block_seeded_extends(
                        problem,
                        g,
                        self.filled(g, pop_size as nat) as int,
                        self.filled(g + 1, pop_size as nat) as int,
                        before,
                        population@,
                    );
                }
            }
            h += 1;
        }
        let ghost seeded = population@;
        while population.len() < pop_size
            invariant
                self.heuristics@.len() > 0,
                h == self.heuristics@.len(),
                seeded.len() == self.filled(h as int, pop_size as nat),
                seeded.len() <= population@.len() <= pop_size,
                forall|i: int| 0 <= i < seeded.len() ==> population@[i] == seeded[i],
                forall|i: int|
                    seeded.len() <= i < population@.len() ==> self.heuristics@[0].0.generates(
                        problem,
                        #[trigger] population@[i],
                    ),
            decreases pop_size - population@.len(),
        {
            let solution = self.heuristics[0].0.generate(problem);
            population.push(solution);
        }
        proof {
            assert forall|g: int| 0 <= g < self.heuristics@.len() implies #[trigger] self.block_seeded(
                problem,
                g,
                self.filled(g, pop_size as nat) as int,
                self.filled(g + 1, pop_size as nat) as int,
                population@,
            ) by {
                self.filled_reaches(g + 1, h as int, pop_size as nat);
                self.block_seeded_extends(
                    problem,
                    g,
                    self.filled(g, pop_size as nat) as int,
                    self.filled(g + 1, pop_size as nat) as int,
                    seeded,
                    population@,
                );
            }
        }
        population
    }

    /// The number of filled positions after `g` heuristics is at most the
    /// number after `h`, for `g` before `h`.
    proof fn filled_reaches(&self, g: int, h: int, pop_size: nat)
        requires
            0 <= g <= h,
        ensures
            self.filled(g, pop_size) <= self.filled(h, pop_size),
        decreases h - g,
    {
        if g < h {
            self.filled_reaches(g, h - 1, pop_size);
            self.filled_is_monotonic(h - 1, pop_size);
        }
    }

    /// A block that is seeded in a population is seeded in every population
    /// that begins with the same individuals.
    proof fn block_seeded_extends(
        &self,
        problem: &P,
        h: int,
        low: int,
        high: int,
        short: Seq<P::Solution>,
        long: Seq<P::Solution>,
    )
        requires
            0 <= low,
            high <= short.len() <= long.len(),
            forall|i: int| 0 <= i < short.len() ==> long[i] == short[i],
            self.block_seeded(problem, h, low, high, short),
        ensures
            self.block_seeded(problem, h, low, high, long),
    {
        if self.heuristics@[h].0.deterministic() {
            if low < high {
                let base = choose|base: P::Solution|
                    {
                        &&& #[trigger] self.heuristics@[h].0.generates(problem, base)
                        &&& forall|i: int| low <= i < high ==> cloned(base, #[trigger] short[i])
                    };
                assert forall|i: int| low <= i < high implies cloned(base, #[trigger] long[i]) by {}
            }
        } else {
            assert forall|i: int| low <= i < high implies self.heuristics@[h].0.generates(
                problem,
                #[trigger] long[i],
            ) by {}
        }
    }
}

/// Appends `count` clones of `base` to a population.
fn push_clones<S: Clone>(population: &mut Vec<S>, base: &S, count: usize)
    ensures
        final(population)@.len() == old(population)@.len() + count,
        forall|i: int| 0 <= i < old(population)@.len() ==> final(population)@[i] == old(population)@[i],
        forall|i: int|
            old(population)@.len() <= i < final(population)@.len() ==> cloned(
                *base,
                #[trigger] final(population)@[i],
            ),
{
    let mut done: usize = 0;
    while done < count
        invariant
            done <= count,
            population@.len() == old(population)@.len() + done,
            forall|i: int| 0 <= i < old(population)@.len() ==> population@[i] == old(population)@[i],
            forall|i: int|
                old(population)@.len() <= i < population@.len() ==> cloned(
                    *base,
                    #[trigger] population@[i],
                ),
        decreases count - done,
    {
        population.push(base.clone());
        done += 1;
    }
}

/// Appends `count` solutions to a population, asking the heuristic once for
/// each of them.
fn push_generated<'a, P: Problem>(
    population: &mut Vec<P::Solution>,
    heuristic: &Box<dyn InitialSolutionHeuristic<P> + 'a>,
    problem: &P,
    count: usize,
)
    ensures
        final(population)@.len() == old(population)@.len() + count,
        forall|i: int| 0 <= i < old(population)@.len() ==> final(population)@[i] == old(population)@[i],
        forall|i: int|
            old(population)@.len() <= i < final(population)@.len() ==> heuristic.generates(
                problem,
                #[trigger] final(population)@[i],
            ),
{
    let mut done: usize = 0;
    while done < count
        invariant
            done <= count,
            population@.len() == old(population)@.len() + done,
            forall|i: int| 0 <= i < old(population)@.len() ==> population@[i] == old(population)@[i],
            forall|i: int|
                old(population)@.len() <= i < population@.len() ==> heuristic.generates(
                    problem,
                    #[trigger] population@[i],
                ),
        decreases count - done,
    {
        population.push(heuristic.generate(problem));
        done += 1;
    }
}

} // verus!
