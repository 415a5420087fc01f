use std::fmt::Debug;
use vstd::pervasive::cloned;
use vstd::prelude::*;

verus! {

/// A candidate answer to a problem: a value that can be cloned, printed for
/// debugging and shared between worker threads, and that carries a fitness
/// score.
///
/// The score means nothing until the owning problem has evaluated the solution
/// at least once.
pub trait Solution: Clone + Debug + Send + Sync {
    /// The fitness score that the solution carries, as contracts see it.
    open spec fn fitness_value(&self) -> i64 {
        arbitrary()
    }

    /// Reads the fitness score.
    fn fitness(&self) -> (fitness: i64)
        ensures
            fitness == self.fitness_value(),
    ;

    /// A clone carries the fitness score of the solution it was cloned from.
    proof fn clone_keeps_fitness(&self, copy: &Self)
        requires
            cloned(*self, *copy),
        ensures
            copy.fitness_value() == self.fitness_value(),
    ;

    /// Stores a fitness score.
    fn set_fitness(&mut self, fitness: i64)
        ensures
            final(self).fitness_value() == fitness,
    ;
}

} // verus!
