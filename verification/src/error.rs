//! The failures a crossover can report.

use vstd::prelude::*;

verus! {

/// Why a crossover, or a draw it depends on, was refused.
#[derive(Debug, Clone, Copy, PartialEq, Eq, Structural)]
pub enum CrossoverError {
    /// The parents share fewer than two positions, so there is no place
    /// strictly inside them at which to cut.
    GenotypeTooShort,
    /// A draw was asked from a range that is empty or inverted.
    InvalidRange,
}

} // verus!
