use vstd::prelude::*;

verus! {

/// The default iteration budget of the GJK intersection and distance loops.
pub const GJK_ITERATIONS: usize = 1000;

/// The default iteration budget of EPA.
pub const EPA_ITERATIONS: usize = 100;

/// How many iterations GJK and EPA may take before giving up. GJK running
/// out is read as "no intersection"; EPA running out is a convergence
/// failure.
#[derive(Debug, Clone, Copy, PartialEq, Eq, Structural)]
pub struct IterationCaps {
    pub gjk: usize,
    pub epa: usize,
}

impl IterationCaps {
    pub fn new(gjk: usize, epa: usize) -> (r: Self)
        ensures
            r.gjk == gjk,
            r.epa == epa,
    {
        IterationCaps { gjk, epa }
    }
}

impl Default for IterationCaps {
    fn default() -> (r: Self)
        ensures
            r.gjk == GJK_ITERATIONS,
            r.epa == EPA_ITERATIONS,
    {
        IterationCaps { gjk: GJK_ITERATIONS, epa: EPA_ITERATIONS }
    }
}

} // verus!
