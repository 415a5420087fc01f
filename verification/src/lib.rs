//! A pluggable engine for population-based search: a generic solver driver,
//! a generational genetic algorithm, and the canonical operators around it.
//!
//! Fitness values are signed integers, probabilities and seeding weights are
//! ratios of integers, so that every rule of the engine is stated exactly.

pub mod clock;
pub mod engine;
pub mod evaluation;
pub mod initializer;
pub mod operators;
pub mod problem;
pub mod random;
pub mod ranking;
pub mod ratio;
pub mod solution;
pub mod solver;
pub mod state;
pub mod termination;

pub use engine::GeneticAlgorithm;
pub use initializer::{HybridInitializer, InitialSolutionHeuristic};
pub use problem::{OptimizationGoal, Problem};
pub use ratio::Ratio;
pub use solution::Solution;
pub use solver::{Metaheuristic, Solver};
pub use state::AlgorithmState;
pub use termination::{ByDuration, ByIterations, TerminationCriteria};
