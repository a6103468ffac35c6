use room_interaction::aabb::{aabb_overlap, Point};

#[test]
fn boxes_four_wide_three_apart_overlap() {
    assert!(aabb_overlap(Point::new(0, 0), 4, 4, Point::new(3, 0), 4, 4));
}

#[test]
fn boxes_ten_apart_do_not_overlap() {
    assert!(!aabb_overlap(Point::new(0, 0), 4, 4, Point::new(10, 0), 4, 4));
}

#[test]
fn touching_edges_overlap() {
    // [-2, 2] and [2, 6] share the edge x = 2.
    assert!(aabb_overlap(Point::new(0, 0), 4, 4, Point::new(4, 0), 4, 4));
    assert!(aabb_overlap(Point::new(0, 0), 4, 4, Point::new(0, -4), 4, 4));
}

#[test]
fn one_unit_gap_separates() {
    assert!(!aabb_overlap(Point::new(0, 0), 4, 4, Point::new(5, 0), 4, 4));
    assert!(!aabb_overlap(Point::new(0, 0), 4, 4, Point::new(0, 5), 4, 4));
}

#[test]
fn odd_sizes_use_exact_half_edges() {
    // [-1.5, 1.5] and [1.5, 4.5] touch.
    assert!(aabb_overlap(Point::new(0, 0), 3, 3, Point::new(3, 0), 3, 3));
    assert!(aabb_overlap(Point::new(0, 0), 3, 3, Point::new(3, 0), 3, 2));
    // [-1.5, 1.5] against [2, 6] and against [2.5, 5.5]: a gap on x.
    assert!(!aabb_overlap(Point::new(0, 0), 3, 3, Point::new(4, 0), 4, 3));
    assert!(!aabb_overlap(Point::new(0, 0), 3, 3, Point::new(4, 0), 3, 3));
}

#[test]
fn overlap_is_symmetric_on_samples() {
    let boxes = [
        (Point::new(0, 0), 4, 4),
        (Point::new(3, 0), 4, 4),
        (Point::new(10, 0), 4, 4),
        (Point::new(-90, -62), 28, 32),
        (Point::new(148, -50), 3, 4),
        (Point::new(70, -58), 17, 25),
        (Point::new(-80, -50), 16, 40),
    ];
    for (p1, w1, h1) in boxes.iter() {
        for (p2, w2, h2) in boxes.iter() {
            assert_eq!(
                aabb_overlap(*p1, *w1, *h1, *p2, *w2, *h2),
                aabb_overlap(*p2, *w2, *h2, *p1, *w1, *h1)
            );
        }
    }
}

#[test]
fn same_center_always_overlaps() {
    assert!(aabb_overlap(Point::new(7, -3), 1, 1, Point::new(7, -3), 100, 2));
    assert!(aabb_overlap(Point::new(-90, -62), 28, 32, Point::new(-90, -62), 1, 1));
}

#[test]
fn far_apart_on_one_axis_never_overlaps() {
    // Centres 10 apart on y, half heights 2 + 3 = 5.
    assert!(!aabb_overlap(Point::new(0, 0), 100, 4, Point::new(0, 10), 100, 6));
}

#[test]
fn extreme_coordinates_do_not_overflow() {
    assert!(!aabb_overlap(Point::new(i32::MIN, 0), i32::MAX, 1, Point::new(i32::MAX, 0), i32::MAX, 1));
    assert!(aabb_overlap(Point::new(i32::MAX, i32::MAX), i32::MAX, i32::MAX, Point::new(i32::MAX, i32::MAX), 1, 1));
}
