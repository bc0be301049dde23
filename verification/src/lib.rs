//! Recombination for evolutionary algorithms.
//!
//! Two parent genotypes go in, two children come out. Each child takes every
//! position it has from one of the parents, and the second child always takes
//! the gene that the first one left. Which parent supplies which position is
//! decided by one of three strategies; see [`CrossoverFunctions`].
//!
//! Every contract is stated over the sequence of genes that a genotype
//! stands for, and is checked by Verus.

pub mod chromosome;
pub mod crossover;
pub mod error;
pub mod genotype;
pub mod laws;
pub mod model;
pub mod random;

pub use chromosome::Chromosome;
pub use crossover::{
    multi_point_children, single_point_children, uniform_children, Crossover, CrossoverFunctions,
};
pub use error::CrossoverError;
pub use genotype::Genotype;
pub use random::{draw_cross_point, draw_cross_points, step_limit, uniform_int};
