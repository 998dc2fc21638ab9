use vstd::prelude::*;

verus! {

/// The side of a clipping line that a point lies on, from the sign of its
/// signed distance `n·p - offset`.
#[derive(Debug, Clone, Copy, PartialEq, Eq, Structural)]
pub enum Side {
    /// Negative distance: inside the kept half-plane.
    Inside,
    /// Zero distance: on the line, which is kept too.
    On,
    /// Positive distance: outside, clipped away.
    Outside,
}

/// A point is kept when its distance is at most zero.
pub open spec fn kept(s: Side) -> bool {
    s != Side::Outside
}

/// The segment crosses the line when the two distances have strictly
/// opposite signs (their product is negative).
pub open spec fn crosses(s1: Side, s2: Side) -> bool {
    (s1 == Side::Inside && s2 == Side::Outside) || (s1 == Side::Outside && s2 == Side::Inside)
}

/// The points that survive clipping the segment `p1 p2` against one line:
/// each kept endpoint in order, then the crossing point if the segment
/// crosses the line.
pub open spec fn clipped<P>(p1: P, s1: Side, p2: P, s2: Side, crossing: P) -> Seq<P> {
    let first = if kept(s1) { seq![p1] } else { Seq::empty() };
    let second = if kept(s2) { seq![p2] } else { Seq::empty() };
    let third = if crosses(s1, s2) { seq![crossing] } else { Seq::empty() };
    first + second + third
}

/// Clipping keeps a segment that lies wholly on the kept side, and cuts a
/// segment that crosses the line at the crossing point: the points that
/// survive are the ends of the part of the segment on the kept side.
pub proof fn lemma_clip_keeps_inner_part<P>(p1: P, s1: Side, p2: P, s2: Side, crossing: P)
    ensures
        kept(s1) && kept(s2) ==> clipped(p1, s1, p2, s2, crossing) == seq![p1, p2],
        s1 == Side::Inside && s2 == Side::Outside ==> clipped(p1, s1, p2, s2, crossing) == seq![
            p1,
            crossing,
        ],
        s1 == Side::Outside && s2 == Side::Inside ==> clipped(p1, s1, p2, s2, crossing) == seq![
            p2,
            crossing,
        ],
{
    if kept(s1) && kept(s2) {
        assert(clipped(p1, s1, p2, s2, crossing) =~= seq![p1, p2]);
    }
    if s1 == Side::Inside && s2 == Side::Outside {
        assert(clipped(p1, s1, p2, s2, crossing) =~= seq![p1, crossing]);
    }
    if s1 == Side::Outside && s2 == Side::Inside {
        assert(clipped(p1, s1, p2, s2, crossing) =~= seq![p2, crossing]);
    }
}

/// Clips the segment `p1 p2` against one line. `s1` and `s2` are the sides
/// of the two endpoints; `crossing` is where the segment meets the line,
/// used only when it does cross. At most two points come out, and fewer
/// than two only when an endpoint lies strictly outside.
pub fn clip_segment<P: Copy>(p1: P, s1: Side, p2: P, s2: Side, crossing: P) -> (r: Vec<P>)
    ensures
        r@ == clipped(p1, s1, p2, s2, crossing),
        r@.len() <= 2,
        r@.len() < 2 <==> (s1 == Side::Outside || s2 == Side::Outside) && !crosses(s1, s2),
{
    let mut points: Vec<P> = Vec::new();
    if s1 != Side::Outside {
        points.push(p1);
    }
    if s2 != Side::Outside {
        points.push(p2);
    }
    if (s1 == Side::Inside && s2 == Side::Outside) || (s1 == Side::Outside && s2 == Side::Inside) {
        points.push(crossing);
    }
    assert(points@ =~= clipped(p1, s1, p2, s2, crossing));
    points
}

} // verus!
