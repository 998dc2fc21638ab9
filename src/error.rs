use vstd::prelude::*;

verus! {

/// Failures that the collision routines report instead of aborting.
#[derive(Debug, Clone, Copy, PartialEq, Eq, Structural)]
pub enum CollisionError {
    /// No support point distinct from the current simplex could be found.
    DegenerateSimplex,
    /// An iterative refinement ran out of its iteration budget.
    ConvergenceFailure,
    /// A matrix that had to be inverted has no inverse.
    SingularMatrix,
    /// The input shape is malformed (a zero-length edge, too few vertices).
    InvalidGeometry,
}

} // verus!
