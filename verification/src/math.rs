//! Small math: pseudo-random and random numbers scaled to a bound.

pub mod rand;
pub mod random;
pub mod srand;

use vstd::prelude::*;

verus! {

/// List of all possible math errors.
#[derive(Debug, Copy, Clone, PartialEq, Eq, Structural)]
pub enum MathError {
    /// Number Out Of Bound
    OutOfBound,
    /// Must be Initialized
    NotInitialized,
    /// A Division by zero is a impossible operation
    DivideByZero,
    /// Mathematical Out Of Bound
    Overflow,
    /// This real number seems to be infinite
    Infinity,
    /// Unsupported operation
    Unsupported,
}

/// Math result convention.
pub type MathResult<T> = Result<T, MathError>;

} // verus!
