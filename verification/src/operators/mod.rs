//! The operator families of the genetic algorithm, each behind a trait, and
//! the canonical implementations.

pub mod crossover;
pub mod mutation;
pub mod repair;
pub mod selection;
