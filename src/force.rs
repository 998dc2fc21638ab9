use vstd::prelude::*;

verus! {

/// The force generator that pulls a body down with constant gravity.
#[derive(Debug, Clone, Copy, PartialEq, Eq, Structural)]
pub struct GravityGenerator {}

impl GravityGenerator {
    pub fn new() -> (r: Self)
        ensures
            r == (GravityGenerator {}),
    {
        GravityGenerator {}
    }
}

} // verus!
