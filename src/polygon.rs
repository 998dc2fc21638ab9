use vstd::prelude::*;

use crate::error::CollisionError;
use crate::simplex::{next_index, prev_index};

verus! {

/// An edge of a polygon by vertex positions: it runs from `first` to
/// `second`, and `max` is the vertex farthest along the search direction.
#[derive(Debug, Clone, Copy, PartialEq, Eq, Structural)]
pub struct EdgeFeature {
    pub first: usize,
    pub second: usize,
    pub max: usize,
}

/// The edge at the farthest vertex `index` of an `n`-gon: the edge arriving
/// at it when `toward_prev` (its outward normal is the less aligned with the
/// search direction), else the edge leaving it.
pub fn farthest_edge(n: usize, index: usize, toward_prev: bool) -> (r: EdgeFeature)
    requires
        index < n,
    ensures
        r.max == index,
        toward_prev ==> r.first == (index + n - 1) % (n as int) && r.second == index,
        !toward_prev ==> r.first == index && r.second == (index + 1) % (n as int),
        r.first < n && r.second < n,
{
    if toward_prev {
        EdgeFeature { first: prev_index(n, index), second: index, max: index }
    } else {
        EdgeFeature { first: index, second: next_index(n, index), max: index }
    }
}

/// Orders the candidate edges of the two polygons into reference and
/// incident edge. `a_is_reference` tells whether the edge of `a` is the more
/// nearly perpendicular to the contact normal. The flag that comes back says
/// whether the roles were swapped, in which case the normal must be reversed.
pub fn order_edges<E>(on_a: E, on_b: E, a_is_reference: bool) -> (r: (E, E, bool))
    ensures
        a_is_reference ==> r == (on_a, on_b, false),
        !a_is_reference ==> r == (on_b, on_a, true),
{
    if a_is_reference {
        (on_a, on_b, false)
    } else {
        (on_b, on_a, true)
    }
}

/// Whether a polygon described edge by edge is malformed: it has no vertex,
/// or one of its edges has zero length.
pub open spec fn malformed(zero_length: Seq<bool>) -> bool {
    zero_length.len() == 0 || exists|i: int| 0 <= i < zero_length.len() && zero_length[i]
}

/// Checks a polygon before it is used as a collider. Entry `i` of
/// `zero_length` tells whether vertex `i` coincides with the next one
/// (cyclically). A polygon with no vertex or with a zero-length edge is
/// rejected, so that no direction is ever normalised from a null edge.
pub fn validate_polygon(zero_length: &Vec<bool>) -> (r: Result<(), CollisionError>)
    ensures
        r is Ok <==> !malformed(zero_length@),
        r is Err ==> r == Err::<(), CollisionError>(CollisionError::InvalidGeometry),
{
    if zero_length.len() == 0 {
        return Err(CollisionError::InvalidGeometry);
    }
    let mut i: usize = 0;
    while i < zero_length.len()
        invariant
            0 <= i <= zero_length@.len(),
            forall|k: int| 0 <= k < i ==> !zero_length@[k],
        decreases zero_length@.len() - i,
    {
        if zero_length[i] {
            return Err(CollisionError::InvalidGeometry);
        }
        i = i + 1;
    }
    Ok(())
}

} // verus!
