use crate::problem::OptimizationGoal;
use crate::random::random_draw;
use crate::ranking::{fitnesses, is_draw, tournament_winner, wins_tournament};
use crate::solution::Solution;
use rand::rngs::ThreadRng;
use vstd::prelude::*;

verus! {

/// A selection: the choice of two parents from the current population.
pub trait SelectionOperator<S: Solution> {
    /// The operator can select from a population of `population_len`
    /// individuals. By default any population that is not empty will do.
    open spec fn admits(&self, population_len: nat) -> bool {
        population_len > 0
    }

    /// What the operator promises of each parent that it selects from
    /// `population`. An operator that promises nothing accepts every parent.
    open spec fn selects(&self, population: Seq<S>, goal: OptimizationGoal, parent: S) -> bool {
        true
    }

    /// Selects two parents. Both are individuals of `population`; they may be
    /// the same one.
    fn select<'a>(&self, rng: &mut ThreadRng, population: &'a [S], goal: OptimizationGoal) -> (parents:
        (&'a S, &'a S))
        requires
            self.admits(population@.len()),
        ensures
            population@.contains(*parents.0),
            population@.contains(*parents.1),
            self.selects(population@, goal, *parents.0),
            self.selects(population@, goal, *parents.1),
    ;
}

/// Tournament selection: a parent is the best of a few individuals drawn at
/// random, without repetition, from the population.
pub struct TournamentSelection {
    size: usize,
}

/// `parent` is the winner of a tournament of `size` individuals of
/// `population`, for some draw.
pub open spec fn is_tournament_parent<S: Solution>(
    population: Seq<S>,
    goal: OptimizationGoal,
    size: nat,
    parent: S,
) -> bool {
    exists|draw: Seq<usize>, winner: usize|
        is_draw(draw, population.len(), size) && #[trigger] wins_tournament(
            fitnesses(population),
            draw,
            goal,
            winner,
        ) && winner < population.len() && parent == population[winner as int]
}

impl TournamentSelection {
    #[verifier::type_invariant]
    spec fn well_formed(self) -> bool {
        self.size > 0
    }

    /// The number of individuals that take part in a tournament.
    pub closed spec fn tournament_size(&self) -> nat {
        self.size as nat
    }

    /// Makes a tournament selection in which `tournament_size` individuals
    /// compete. A tournament needs at least one competitor.
    #[must_use]
    pub fn new(tournament_size: usize) -> (selection: Self)
        requires
            tournament_size > 0,
        ensures
            selection.tournament_size() == tournament_size,
    {
        Self { size: tournament_size }
    }

    /// Reads the number of individuals that take part in a tournament.
    pub fn size(&self) -> (size: usize)
        ensures
            size == self.tournament_size(),
            size > 0,
    {
        proof {
            use_type_invariant(self);
        }
        self.size
    }

    /// A tournament can be held in a population of `population_len`
    /// individuals: there are at least as many individuals as competitors,
    /// and more individuals than competitors where the population is larger
    /// than 32 bits can count.
    pub open spec fn can_draw_from(&self, population_len: nat) -> bool {
        &&& self.tournament_size() <= population_len
        &&& population_len <= u32::MAX || self.tournament_size() < population_len
    }

    /// Tells whether a tournament can be held in a population of
    /// `population_len` individuals.
    pub fn fits(&self, population_len: usize) -> (fits: bool)
        ensures
            fits == self.can_draw_from(population_len as nat),
    {
        self.size <= population_len && (population_len <= 0xffff_ffff || self.size
            < population_len)
    }

    /// Draws the competitors and returns the winner of the tournament.
    fn run_tournament<'a, S: Solution>(
        &self,
        rng: &mut ThreadRng,
        population: &'a [S],
        goal: OptimizationGoal,
    ) -> (parent: &'a S)
        requires
            self.can_draw_from(population@.len()),
        ensures
            population@.contains(*parent),
            is_tournament_parent(population@, goal, self.tournament_size(), *parent),
    {
        proof {
            use_type_invariant(self);
        }
        let draw = random_draw(rng, population.len(), self.size);
        let winner = tournament_winner(population, &draw, goal);
        &population[winner]
    }
}

impl<S: Solution> SelectionOperator<S> for TournamentSelection {
    /// A tournament needs as many individuals as it has competitors, and more
    /// where the population is larger than 32 bits can count.
    open spec fn admits(&self, population_len: nat) -> bool {
        self.can_draw_from(population_len)
    }

    /// Each parent is the winner of a tournament among distinct individuals
    /// drawn from the population.
    open spec fn selects(&self, population: Seq<S>, goal: OptimizationGoal, parent: S) -> bool {
        is_tournament_parent(population, goal, self.tournament_size(), parent)
    }

    /// Holds two independent tournaments, one for each parent.
    fn select<'a>(&self, rng: &mut ThreadRng, population: &'a [S], goal: OptimizationGoal) -> (parents:
        (&'a S, &'a S)) {
        let parent1 = self.run_tournament(rng, population, goal);
        let parent2 = self.run_tournament(rng, population, goal);
        (parent1, parent2)
    }
}

} // verus!
