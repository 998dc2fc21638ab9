use physics2d::error::CollisionError;
use physics2d::matrix::Matrix;
use physics2d::simplex::{next_index, prev_index, Simplex};

fn simplex_of(points: &[i32]) -> Simplex<i32> {
    let mut s = Simplex::new();
    for p in points {
        s.add(*p);
    }
    s
}

#[test]
fn simplex_starts_empty_and_grows_in_order() {
    let mut s: Simplex<i32> = Simplex::new();
    assert_eq!(s.len(), 0);
    s.add(1);
    s.add(2);
    s.insert(0, 0);
    assert_eq!(s.points, vec![0, 1, 2]);
    assert_eq!(*s.get(2), 2);
    s.set(1, 7);
    assert_eq!(s.points, vec![0, 7, 2]);
}

#[test]
fn line_step_toward_origin_keeps_both() {
    let mut s = simplex_of(&[10, 20]);
    s.reduce_line(true);
    assert_eq!(s.points, vec![10, 20]);
}

#[test]
fn line_step_away_keeps_newest() {
    let mut s = simplex_of(&[10, 20]);
    s.reduce_line(false);
    assert_eq!(s.points, vec![20]);
}

#[test]
fn triangle_outside_ac_drops_middle() {
    let mut s = simplex_of(&[1, 2, 3]);
    assert!(!s.reduce_triangle(true, false));
    assert_eq!(s.points, vec![1, 3]);
}

#[test]
fn triangle_outside_ab_drops_oldest() {
    let mut s = simplex_of(&[1, 2, 3]);
    assert!(!s.reduce_triangle(false, true));
    assert_eq!(s.points, vec![2, 3]);
}

#[test]
fn triangle_outside_both_prefers_ac() {
    let mut s = simplex_of(&[1, 2, 3]);
    assert!(!s.reduce_triangle(true, true));
    assert_eq!(s.points, vec![1, 3]);
}

#[test]
fn triangle_enclosing_origin_is_kept() {
    let mut s = simplex_of(&[1, 2, 3]);
    assert!(s.reduce_triangle(false, false));
    assert_eq!(s.points, vec![1, 2, 3]);
}

#[test]
fn degenerate_line_adds_left_first() {
    let mut s = simplex_of(&[1, 2]);
    assert_eq!(s.add_alternative(5, true, 6, true), Ok(()));
    assert_eq!(s.points, vec![1, 2, 5]);
}

#[test]
fn degenerate_line_falls_back_to_right() {
    let mut s = simplex_of(&[1, 2]);
    assert_eq!(s.add_alternative(1, false, 6, true), Ok(()));
    assert_eq!(s.points, vec![1, 2, 6]);
}

#[test]
fn degenerate_line_without_fresh_support_fails() {
    let mut s = simplex_of(&[1, 2]);
    assert_eq!(
        s.add_alternative(1, false, 2, false),
        Err(CollisionError::DegenerateSimplex)
    );
    assert_eq!(s.points, vec![1, 2]);
}

#[test]
fn epa_expansion_inserts_after_edge_start() {
    let mut s = simplex_of(&[1, 2, 3]);
    assert_eq!(s.successor(0), 1);
    assert_eq!(s.successor(2), 0);
    s.expand(2, 9);
    assert_eq!(s.points, vec![1, 2, 3, 9]);
    s.expand(0, 8);
    assert_eq!(s.points, vec![1, 8, 2, 3, 9]);
}

#[test]
fn distance_step_replaces_farther_vertex() {
    let mut s = simplex_of(&[1, 2]);
    s.replace_farther(true, 5);
    assert_eq!(s.points, vec![1, 5]);
    s.replace_farther(false, 7);
    assert_eq!(s.points, vec![7, 5]);
}

#[test]
fn cyclic_indices_wrap() {
    assert_eq!(next_index(4, 3), 0);
    assert_eq!(next_index(4, 1), 2);
    assert_eq!(prev_index(4, 0), 3);
    assert_eq!(prev_index(4, 2), 1);
    assert_eq!(next_index(1, 0), 0);
    assert_eq!(prev_index(1, 0), 0);
}

#[test]
fn matrix_identity_and_transpose() {
    let id = Matrix::id(3, 0, 1);
    assert_eq!((id.rows(), id.cols()), (3, 3));
    assert_eq!((id.get(1, 1), id.get(1, 2), id.get(2, 0)), (1, 0, 0));
    let m = Matrix::from(vec![vec![1, 2, 3], vec![4, 5, 6]]);
    let t = m.transpose();
    assert_eq!((t.rows(), t.cols()), (3, 2));
    assert_eq!((t.get(0, 1), t.get(2, 0), t.get(2, 1)), (4, 3, 6));
}

#[test]
fn matrix_set_and_swap_rows() {
    let mut m = Matrix::zeroes(2, 2, 0);
    m.set(0, 1, 7);
    m.swap_rows(0, 1);
    assert_eq!((m.get(0, 0), m.get(0, 1), m.get(1, 0), m.get(1, 1)), (0, 0, 0, 7));
    m.swap_rows(1, 1);
    assert_eq!(m.get(1, 1), 7);
}
