use vstd::prelude::*;

verus! {

/// The two kinds of collider.
#[derive(Debug, Clone, Copy, PartialEq, Eq, Structural)]
pub enum ShapeKind {
    Circle,
    Polygon,
}

/// The narrow-phase routine that handles a pair of shapes.
#[derive(Debug, Clone, Copy, PartialEq, Eq, Structural)]
pub enum NarrowPhase {
    CircleCircle,
    CirclePolygon,
    PolygonPolygon,
}

/// The routine for a pair, and whether its operands must be swapped so that
/// the circle of a circle-polygon pair comes first.
#[derive(Debug, Clone, Copy, PartialEq, Eq, Structural)]
pub struct Pairing {
    pub routine: NarrowPhase,
    pub swapped: bool,
}

/// Two circles, two polygons, or one of each.
pub open spec fn routine_for(a: ShapeKind, b: ShapeKind) -> NarrowPhase {
    match (a, b) {
        (ShapeKind::Circle, ShapeKind::Circle) => NarrowPhase::CircleCircle,
        (ShapeKind::Polygon, ShapeKind::Polygon) => NarrowPhase::PolygonPolygon,
        _ => NarrowPhase::CirclePolygon,
    }
}

/// Chooses the routine for shapes `a` and `b`. Only a polygon followed by a
/// circle is swapped.
pub fn dispatch(a: ShapeKind, b: ShapeKind) -> (r: Pairing)
    ensures
        r.routine == routine_for(a, b),
        r.swapped <==> (a == ShapeKind::Polygon && b == ShapeKind::Circle),
{
    match (a, b) {
        (ShapeKind::Circle, ShapeKind::Circle) => Pairing {
            routine: NarrowPhase::CircleCircle,
            swapped: false,
        },
        (ShapeKind::Circle, ShapeKind::Polygon) => Pairing {
            routine: NarrowPhase::CirclePolygon,
            swapped: false,
        },
        (ShapeKind::Polygon, ShapeKind::Circle) => Pairing {
            routine: NarrowPhase::CirclePolygon,
            swapped: true,
        },
        (ShapeKind::Polygon, ShapeKind::Polygon) => Pairing {
            routine: NarrowPhase::PolygonPolygon,
            swapped: false,
        },
    }
}

} // verus!
