use platformer_core::geometry::{Aabb, Vec2};

fn square(x: i64, y: i64, half: i64) -> Aabb {
    Aabb::new(Vec2::new(x, y), Vec2::new(half, half))
}

#[test]
fn vec2_constructors() {
    assert_eq!(Vec2::new(3, -4), Vec2 { x: 3, y: -4 });
    assert_eq!(Vec2::zero(), Vec2 { x: 0, y: 0 });
}

#[test]
fn separated_boxes_do_not_overlap() {
    let a = square(0, 0, 10);
    assert!(!a.overlaps(&square(21, 0, 10)));
    assert!(!a.overlaps(&square(0, 21, 10)));
    assert!(!a.overlaps(&square(-21, 0, 10)));
    assert!(!a.overlaps(&square(0, -21, 10)));
}

#[test]
fn intersecting_boxes_overlap() {
    let a = square(0, 0, 10);
    assert!(a.overlaps(&square(5, 5, 10)));
    assert!(a.overlaps(&square(0, 0, 1)));
    assert!(a.overlaps(&a));
}

#[test]
fn touching_edges_count_as_overlap() {
    let a = square(0, 0, 10);
    assert!(a.overlaps(&square(20, 0, 10)));
    assert!(a.overlaps(&square(0, 20, 10)));
    assert!(a.overlaps(&square(-20, 0, 10)));
    assert!(a.overlaps(&square(0, -20, 10)));
    assert!(a.overlaps(&square(20, 20, 10)));
}

#[test]
fn overlap_needs_both_axes() {
    let a = square(0, 0, 10);
    assert!(!a.overlaps(&square(0, 100, 10)));
    assert!(!a.overlaps(&square(100, 0, 10)));
}

#[test]
fn overlap_is_symmetric_on_samples() {
    let boxes = [
        square(0, 0, 10),
        square(20, 0, 10),
        square(21, 0, 10),
        square(-7, 13, 2),
        Aabb::new(Vec2::new(4, 4), Vec2::new(50, 1)),
    ];
    for a in boxes.iter() {
        for b in boxes.iter() {
            assert_eq!(a.overlaps(b), b.overlaps(a));
        }
    }
}

#[test]
fn extreme_coordinates_do_not_overflow() {
    let far_right = Aabb::new(Vec2::new(i64::MAX, 0), Vec2::new(i64::MAX, i64::MAX));
    let far_left = Aabb::new(Vec2::new(i64::MIN, 0), Vec2::new(0, 0));
    assert!(!far_left.overlaps(&far_right));
    assert!(far_right.overlaps(&far_right));
    let origin = Aabb::new(Vec2::new(0, 0), Vec2::new(0, 0));
    assert!(far_right.overlaps(&origin));
    assert!(!far_left.overlaps(&origin));
}

#[test]
fn player_on_platform_top_edge() {
    let player = Aabb::new(Vec2::new(200_000, 475_000), Vec2::new(15_000, 15_000));
    let platform = Aabb::new(Vec2::new(200_000, 500_000), Vec2::new(50_000, 10_000));
    assert!(player.overlaps(&platform));
    let lifted = Aabb::new(Vec2::new(200_000, 474_999), Vec2::new(15_000, 15_000));
    assert!(!lifted.overlaps(&platform));
}
