use vstd::prelude::*;

use crate::dispatch::{dispatch, routine_for, NarrowPhase, ShapeKind};

verus! {

/// The contact between two bodies `a` and `b`: an optional normal, pointing
/// from `a` toward `b` (absent when they do not touch), and up to two contact
/// points, each with its penetration depth.
///
/// The bodies are borrowed, never changed. `B` is the body type, `V` the
/// vector type and `D` the depth type of the caller's arithmetic.
pub struct ContactManifold<'a, B, V, D> {
    pub a: &'a B,
    pub b: &'a B,
    pub normal: Option<V>,
    pub points: Vec<(V, D)>,
}

impl<'a, B, V, D> ContactManifold<'a, B, V, D> {
    /// At most two points, and points only with a normal.
    pub open spec fn wf(&self) -> bool {
        &&& self.points@.len() <= 2
        &&& self.points@.len() > 0 ==> self.normal is Some
    }

    /// A manifold between `a` and `b` with no contact.
    pub fn new(a: &'a B, b: &'a B) -> (r: Self)
        ensures
            r.wf(),
            r.a == a,
            r.b == b,
            r.normal is None,
            r.points@.len() == 0,
    {
        ContactManifold { a, b, normal: None, points: Vec::new() }
    }

    /// The manifold that a narrow-phase routine fills for `a` and `b`, with
    /// kinds `kind_a` and `kind_b`, and that routine. A polygon followed by a
    /// circle is handed over with the two bodies exchanged, so that the
    /// circle comes first: the result is reordered, the caller's bodies are
    /// left alone.
    pub fn for_pair(a: &'a B, kind_a: ShapeKind, b: &'a B, kind_b: ShapeKind) -> (r: (
        Self,
        NarrowPhase,
    ))
        ensures
            r.0.wf(),
            r.0.normal is None,
            r.0.points@.len() == 0,
            r.1 == routine_for(kind_a, kind_b),
            (kind_a == ShapeKind::Polygon && kind_b == ShapeKind::Circle) ==> r.0.a == b && r.0.b
                == a,
            !(kind_a == ShapeKind::Polygon && kind_b == ShapeKind::Circle) ==> r.0.a == a && r.0.b
                == b,
    {
        let pairing = dispatch(kind_a, kind_b);
        if pairing.swapped {
            (ContactManifold::new(b, a), pairing.routine)
        } else {
            (ContactManifold::new(a, b), pairing.routine)
        }
    }

    /// Whether the bodies touch.
    pub fn is_colliding(&self) -> (r: bool)
        ensures
            r == self.normal is Some,
    {
        self.normal.is_some()
    }

    /// The number of contact points.
    pub fn len(&self) -> (r: usize)
        ensures
            r == self.points@.len(),
    {
        self.points.len()
    }

    /// Records a contact with the given normal, keeping the points.
    pub fn set_colliding(&mut self, normal: V)
        requires
            old(self).wf(),
        ensures
            final(self).wf(),
            final(self).normal == Some(normal),
            final(self).points@ == old(self).points@,
            final(self).a == old(self).a,
            final(self).b == old(self).b,
    {
        self.normal = Some(normal);
    }

    /// Records that the bodies do not touch: no normal and no points.
    pub fn unset_colliding(&mut self)
        requires
            old(self).wf(),
        ensures
            final(self).wf(),
            final(self).normal is None,
            final(self).points@.len() == 0,
            final(self).a == old(self).a,
            final(self).b == old(self).b,
    {
        self.normal = None;
        self.points.clear();
    }

    /// Adds a contact point with its depth, after the normal is set.
    pub fn add_point(&mut self, point: V, depth: D)
        requires
            old(self).wf(),
            old(self).normal is Some,
            old(self).points@.len() < 2,
        ensures
            final(self).wf(),
            final(self).points@ == old(self).points@.push((point, depth)),
            final(self).normal == old(self).normal,
            final(self).a == old(self).a,
            final(self).b == old(self).b,
    {
        self.points.push((point, depth));
    }
}

} // verus!
