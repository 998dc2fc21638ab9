use vstd::prelude::*;

use vstd::arithmetic::div_mod::{
    lemma_mod_add_multiples_vanish, lemma_mod_self_0, lemma_small_mod,
};

use crate::error::CollisionError;

verus! {

/// An ordered set of points of the Minkowski difference, oldest first.
///
/// GJK grows it to two or three vertices around the origin; EPA then
/// expands it into a polygon by inserting vertices between edge endpoints.
/// The vertex type is left open: the arithmetic that produces vertices lives
/// with the caller, the bookkeeping of which vertices are kept lives here.
pub struct Simplex<V> {
    pub points: Vec<V>,
}

impl<V> View for Simplex<V> {
    type V = Seq<V>;

    open spec fn view(&self) -> Seq<V> {
        self.points@
    }
}

/// What the two-vertex (line) step of GJK does to the simplex.
pub open spec fn line_step<V>(s: Seq<V>, toward_origin: bool) -> Seq<V>
    recommends
        s.len() == 2,
{
    if toward_origin {
        s
    } else {
        seq![s[1]]
    }
}

/// What the three-vertex (triangle) step of GJK does to the simplex: the
/// origin beyond the edge to the middle vertex drops that vertex, beyond the
/// edge to the oldest drops the oldest, otherwise the triangle is kept.
pub open spec fn triangle_step<V>(s: Seq<V>, outside_ac: bool, outside_ab: bool) -> Seq<V>
    recommends
        s.len() == 3,
{
    if outside_ac {
        seq![s[0], s[2]]
    } else if outside_ab {
        seq![s[1], s[2]]
    } else {
        s
    }
}

impl<V> Simplex<V> {
    /// An empty simplex.
    pub fn new() -> (r: Self)
        ensures
            r@ == Seq::<V>::empty(),
    {
        Simplex { points: Vec::new() }
    }

    /// Appends a vertex as the newest one.
    pub fn add(&mut self, point: V)
        ensures
            final(self)@ == old(self)@.push(point),
    {
        self.points.push(point);
    }

    /// Inserts a vertex before position `index`.
    pub fn insert(&mut self, index: usize, point: V)
        requires
            index <= old(self)@.len(),
        ensures
            final(self)@ == old(self)@.insert(index as int, point),
    {
        self.points.insert(index, point);
    }

    /// The number of vertices.
    pub fn len(&self) -> (r: usize)
        ensures
            r == self@.len(),
    {
        self.points.len()
    }

    /// The vertex at position `index`.
    pub fn get(&self, index: usize) -> (r: &V)
        requires
            index < self@.len(),
        ensures
            *r == self@[index as int],
    {
        &self.points[index]
    }

    /// Replaces the vertex at position `index`.
    pub fn set(&mut self, index: usize, point: V)
        requires
            index < old(self)@.len(),
        ensures
            final(self)@ == old(self)@.update(index as int, point),
    {
        self.points.set(index, point);
    }

    /// The line step of GJK. `toward_origin` tells whether the origin lies
    /// in the half-plane beyond the newest vertex along the edge (`ab·ao > 0`):
    /// then both vertices stay and the search turns perpendicular to the
    /// edge; otherwise only the newest vertex is kept.
    pub fn reduce_line(&mut self, toward_origin: bool)
        requires
            old(self)@.len() == 2,
        ensures
            final(self)@ == line_step(old(self)@, toward_origin),
            final(self)@.len() == if toward_origin { 2int } else { 1int },
    {
        if !toward_origin {
            self.points.remove(0);
            assert(self@ =~= line_step(old(self)@, toward_origin));
        }
    }

    /// The triangle step of GJK. The simplex holds `[c, b, a]`, `a` newest.
    /// `outside_ac` tells whether the origin lies beyond edge `ac`,
    /// `outside_ab` whether it lies beyond edge `ab`. Returns whether the
    /// triangle encloses the origin, which is when neither holds.
    pub fn reduce_triangle(&mut self, outside_ac: bool, outside_ab: bool) -> (enclosed: bool)
        requires
            old(self)@.len() == 3,
        ensures
            enclosed == (!outside_ac && !outside_ab),
            final(self)@ == triangle_step(old(self)@, outside_ac, outside_ab),
            final(self)@.len() == if enclosed { 3int } else { 2int },
    {
        if outside_ac {
            self.points.remove(1);
            assert(self@ =~= triangle_step(old(self)@, outside_ac, outside_ab));
            false
        } else if outside_ab {
            self.points.remove(0);
            assert(self@ =~= triangle_step(old(self)@, outside_ac, outside_ab));
            false
        } else {
            true
        }
    }

    /// Resolves the line step when the origin lies on the segment itself.
    /// `left` and `right` are the support vertices along the two edge
    /// normals, each with whether it differs from both current vertices.
    /// The first fresh one is added; with neither, the simplex cannot grow.
    pub fn add_alternative(
        &mut self,
        left: V,
        left_fresh: bool,
        right: V,
        right_fresh: bool,
    ) -> (r: Result<(), CollisionError>)
        ensures
            r is Err <==> (!left_fresh && !right_fresh),
            r is Err ==> r == Err::<(), CollisionError>(CollisionError::DegenerateSimplex)
                && final(self)@ == old(self)@,
            left_fresh ==> final(self)@ == old(self)@.push(left),
            !left_fresh && right_fresh ==> final(self)@ == old(self)@.push(right),
    {
        if left_fresh {
            self.points.push(left);
            Ok(())
        } else if right_fresh {
            self.points.push(right);
            Ok(())
        } else {
            Err(CollisionError::DegenerateSimplex)
        }
    }

    /// The position of the vertex that closes the edge starting at `index`,
    /// the polygon being read cyclically.
    pub fn successor(&self, index: usize) -> (r: usize)
        requires
            index < self@.len(),
        ensures
            r == (index + 1) % (self@.len() as int),
    {
        next_index(self.points.len(), index)
    }

    /// EPA's expansion: puts `point` between the endpoints of the edge that
    /// starts at `index`.
    pub fn expand(&mut self, index: usize, point: V)
        requires
            index < old(self)@.len(),
        ensures
            final(self)@ == old(self)@.insert(index + 1, point),
            final(self)@.len() == old(self)@.len() + 1,
    {
        // reading the length tells Verus that `index + 1` fits in a usize
        let _len: usize = self.points.len();
        self.points.insert(index + 1, point);
    }

    /// GJK distance's update of a two-vertex simplex: `point` replaces the
    /// vertex farther from the origin, so the second one when the first is
    /// the closer.
    pub fn replace_farther(&mut self, first_closer: bool, point: V)
        requires
            old(self)@.len() == 2,
        ensures
            first_closer ==> final(self)@ == seq![old(self)@[0], point],
            !first_closer ==> final(self)@ == seq![point, old(self)@[1]],
    {
        if first_closer {
            self.points.set(1, point);
            assert(self@ =~= seq![old(self)@[0], point]);
        } else {
            self.points.set(0, point);
            assert(self@ =~= seq![point, old(self)@[1]]);
        }
    }
}

/// The index after `i` in a cyclic sequence of `n` items.
pub fn next_index(n: usize, i: usize) -> (r: usize)
    requires
        i < n,
    ensures
        r == (i + 1) % (n as int),
        r < n,
{
    if i + 1 == n {
        proof {
            lemma_mod_self_0(n as int);
        }
        0
    } else {
        proof {
            lemma_small_mod((i + 1) as nat, n as nat);
        }
        i + 1
    }
}

/// The index before `i` in a cyclic sequence of `n` items.
pub fn prev_index(n: usize, i: usize) -> (r: usize)
    requires
        i < n,
    ensures
        r == (i + n - 1) % (n as int),
        r < n,
{
    if i == 0 {
        proof {
            lemma_small_mod((n - 1) as nat, n as nat);
        }
        n - 1
    } else {
        proof {
            lemma_mod_add_multiples_vanish(i - 1, n as int);
            lemma_small_mod((i - 1) as nat, n as nat);
        }
        i - 1
    }
}

} // verus!
