use physics2d::clip::{clip_segment, Side};
use physics2d::config::{IterationCaps, EPA_ITERATIONS, GJK_ITERATIONS};
use physics2d::dispatch::{dispatch, NarrowPhase, ShapeKind};
use physics2d::error::CollisionError;
use physics2d::force::GravityGenerator;
use physics2d::manifold::ContactManifold;
use physics2d::polygon::{farthest_edge, order_edges, validate_polygon, EdgeFeature};

#[test]
fn clip_keeps_both_inside_endpoints() {
    assert_eq!(clip_segment(1, Side::Inside, 2, Side::On, 9), vec![1, 2]);
}

#[test]
fn clip_crossing_segment_keeps_inside_end_and_crossing() {
    assert_eq!(clip_segment(1, Side::Inside, 2, Side::Outside, 9), vec![1, 9]);
    assert_eq!(clip_segment(1, Side::Outside, 2, Side::Inside, 9), vec![2, 9]);
}

#[test]
fn clip_touching_segment_keeps_one_point() {
    assert_eq!(clip_segment(1, Side::On, 2, Side::Outside, 9), vec![1]);
}

#[test]
fn clip_outside_segment_keeps_nothing() {
    assert_eq!(clip_segment(1, Side::Outside, 2, Side::Outside, 9), Vec::<i32>::new());
}

#[test]
fn dispatch_by_kind() {
    let cc = dispatch(ShapeKind::Circle, ShapeKind::Circle);
    assert_eq!((cc.routine, cc.swapped), (NarrowPhase::CircleCircle, false));
    let cp = dispatch(ShapeKind::Circle, ShapeKind::Polygon);
    assert_eq!((cp.routine, cp.swapped), (NarrowPhase::CirclePolygon, false));
    let pc = dispatch(ShapeKind::Polygon, ShapeKind::Circle);
    assert_eq!((pc.routine, pc.swapped), (NarrowPhase::CirclePolygon, true));
    let pp = dispatch(ShapeKind::Polygon, ShapeKind::Polygon);
    assert_eq!((pp.routine, pp.swapped), (NarrowPhase::PolygonPolygon, false));
}

#[test]
fn manifold_puts_the_circle_first() {
    let polygon = "polygon";
    let circle = "circle";
    let (m, routine) =
        ContactManifold::<&str, (i32, i32), i32>::for_pair(&polygon, ShapeKind::Polygon, &circle, ShapeKind::Circle);
    assert_eq!(routine, NarrowPhase::CirclePolygon);
    assert_eq!(*m.a, "circle");
    assert_eq!(*m.b, "polygon");
    let (m, _) =
        ContactManifold::<&str, (i32, i32), i32>::for_pair(&circle, ShapeKind::Circle, &polygon, ShapeKind::Polygon);
    assert_eq!(*m.a, "circle");
}

#[test]
fn manifold_records_and_clears_contact() {
    let a = 1;
    let b = 2;
    let mut m: ContactManifold<i32, (i32, i32), i32> = ContactManifold::new(&a, &b);
    assert!(!m.is_colliding());
    assert_eq!(m.len(), 0);
    m.set_colliding((0, 1));
    m.add_point((3, 4), 5);
    m.add_point((6, 4), 5);
    assert!(m.is_colliding());
    assert_eq!(m.normal, Some((0, 1)));
    assert_eq!(m.points, vec![((3, 4), 5), ((6, 4), 5)]);
    m.unset_colliding();
    assert_eq!(m.normal, None);
    assert_eq!(m.len(), 0);
}

#[test]
fn farthest_edge_picks_arriving_or_leaving_edge() {
    assert_eq!(farthest_edge(4, 0, true), EdgeFeature { first: 3, second: 0, max: 0 });
    assert_eq!(farthest_edge(4, 3, false), EdgeFeature { first: 3, second: 0, max: 3 });
    assert_eq!(farthest_edge(4, 1, false), EdgeFeature { first: 1, second: 2, max: 1 });
}

#[test]
fn reference_edge_swap_sets_flip() {
    assert_eq!(order_edges('a', 'b', true), ('a', 'b', false));
    assert_eq!(order_edges('a', 'b', false), ('b', 'a', true));
}

#[test]
fn zero_length_edge_is_invalid_geometry() {
    assert_eq!(
        validate_polygon(&vec![false, true, false, false]),
        Err(CollisionError::InvalidGeometry)
    );
    assert_eq!(validate_polygon(&vec![]), Err(CollisionError::InvalidGeometry));
    assert_eq!(validate_polygon(&vec![false, false, false]), Ok(()));
}

#[test]
fn default_caps() {
    let caps = IterationCaps::default();
    assert_eq!(caps, IterationCaps::new(GJK_ITERATIONS, EPA_ITERATIONS));
    assert_eq!((caps.gjk, caps.epa), (1000, 100));
}

#[test]
fn gravity_generator_builds() {
    assert_eq!(GravityGenerator::new(), GravityGenerator {});
}
