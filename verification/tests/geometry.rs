use media_control_lib::geometry::{rectangles_overlap, within_tolerance, Rect};

#[test]
fn avoid_rectangles_overlap_detects_overlap() {
    assert!(rectangles_overlap(0, 0, 100, 100, 50, 50, 100, 100));
    assert!(rectangles_overlap(50, 50, 100, 100, 0, 0, 100, 100));
    assert!(rectangles_overlap(0, 0, 200, 200, 50, 50, 50, 50));
}

#[test]
fn avoid_rectangles_overlap_detects_no_overlap() {
    assert!(!rectangles_overlap(0, 0, 100, 100, 100, 0, 100, 100));
    assert!(!rectangles_overlap(0, 0, 100, 100, 0, 100, 100, 100));
    assert!(!rectangles_overlap(0, 0, 100, 100, 150, 150, 100, 100));
}

#[test]
fn avoid_rectangles_overlap_handles_invalid_dimensions() {
    assert!(!rectangles_overlap(0, 0, 0, 100, 0, 0, 100, 100));
    assert!(!rectangles_overlap(0, 0, 100, 0, 0, 0, 100, 100));
    assert!(!rectangles_overlap(0, 0, -10, 100, 0, 0, 100, 100));
}

#[test]
fn avoid_rectangles_overlap_no_overflow_on_extreme_geometry() {
    assert!(rectangles_overlap(i32::MAX - 100, 0, 200, 100, i32::MAX - 50, 0, 100, 100));
    assert!(!rectangles_overlap(i32::MAX - 100, 0, 50, 50, 0, 0, 100, 100));
}

#[test]
fn avoid_within_tolerance_works() {
    assert!(within_tolerance(100, 100, 5));
    assert!(within_tolerance(103, 100, 5));
    assert!(within_tolerance(97, 100, 5));
    assert!(!within_tolerance(106, 100, 5));
    assert!(!within_tolerance(94, 100, 5));
}

#[test]
fn avoid_within_tolerance_no_overflow_on_extreme_inputs() {
    assert!(!within_tolerance(i32::MIN, i32::MAX, 5));
    assert!(!within_tolerance(i32::MAX, i32::MIN, 5));
    assert!(within_tolerance(i32::MAX, i32::MAX, 0));
}

#[test]
fn within_tolerance_negative_tolerance_never_matches() {
    assert!(!within_tolerance(100, 100, -1));
    assert!(!within_tolerance(0, 0, -100));
}

#[test]
fn rectangles_overlap_touching_edges_at_extremes() {
    assert!(!rectangles_overlap(i32::MAX - 200, 0, 100, 100, i32::MAX - 100, 0, 100, 100));
    assert!(!rectangles_overlap(0, 0, 100, 100, 0, 100, 100, 100));
}

#[test]
fn rectangles_overlap_zero_or_negative_second_rect() {
    assert!(!rectangles_overlap(0, 0, 100, 100, 50, 50, 0, 50));
    assert!(!rectangles_overlap(0, 0, 100, 100, 50, 50, 50, 0));
    assert!(!rectangles_overlap(0, 0, 100, 100, 50, 50, -10, 50));
}

#[test]
fn rectangles_overlap_fully_contained() {
    assert!(rectangles_overlap(0, 0, 1000, 1000, 100, 100, 50, 50));
    assert!(rectangles_overlap(100, 100, 50, 50, 0, 0, 1000, 1000));
}

#[test]
fn rectangles_overlap_negative_coordinates() {
    assert!(rectangles_overlap(-100, -100, 50, 50, -120, -120, 40, 40));
    assert!(!rectangles_overlap(-100, -100, 50, 50, -200, -200, 40, 40));
    assert!(!rectangles_overlap(-100, -100, 50, 50, 0, 0, 100, 100));
    assert!(!rectangles_overlap(-100, 0, 100, 100, 0, 0, 100, 100));
}

#[test]
fn rectangles_overlap_zero_size_first_rect() {
    assert!(!rectangles_overlap(0, 0, 0, 100, 50, 50, 100, 100));
    assert!(!rectangles_overlap(0, 0, 100, 0, 50, 50, 100, 100));
    assert!(!rectangles_overlap(0, 0, 0, 0, 0, 0, 0, 0));
}

#[test]
fn rectangles_overlap_touching_corners_at_normal_coords() {
    assert!(!rectangles_overlap(0, 0, 100, 100, 100, 100, 50, 50));
}

#[test]
fn within_tolerance_zero_tolerance() {
    assert!(within_tolerance(100, 100, 0));
    assert!(!within_tolerance(101, 100, 0));
    assert!(!within_tolerance(99, 100, 0));
}

#[test]
fn overlaps_basic() {
    let a = Rect::new(0, 0, 100, 100);
    let b = Rect::new(50, 50, 100, 100);
    assert!(a.overlaps(&b));
    assert!(b.overlaps(&a));
}

#[test]
fn overlaps_touching_edges() {
    let a = Rect::new(0, 0, 100, 100);
    let b = Rect::new(100, 0, 100, 100);
    assert!(!a.overlaps(&b));
}

#[test]
fn overlaps_contained() {
    let outer = Rect::new(0, 0, 1000, 1000);
    let inner = Rect::new(100, 100, 50, 50);
    assert!(outer.overlaps(&inner));
    assert!(inner.overlaps(&outer));
}

#[test]
fn overlaps_degenerate_dimensions() {
    let a = Rect::new(0, 0, 100, 100);
    assert!(!a.overlaps(&Rect::new(50, 50, 0, 50)));
    assert!(!a.overlaps(&Rect::new(50, 50, -10, 50)));
    assert!(!Rect::new(0, 0, 0, 100).overlaps(&a));
}

#[test]
fn overlaps_no_overflow_at_extremes() {
    let a = Rect::new(i32::MAX - 200, 0, 100, 100);
    let b = Rect::new(i32::MAX - 100, 0, 100, 100);
    assert!(!a.overlaps(&b));
}

#[test]
fn overlap_is_symmetric_on_samples() {
    let samples = [
        (0, 0, 10, 10),
        (5, 5, 10, 10),
        (10, 0, 5, 5),
        (-3, -3, 4, 4),
        (0, 0, 0, 5),
        (i32::MAX - 1, i32::MAX - 1, 1, 1),
    ];
    for a in samples {
        for b in samples {
            let ra = Rect::new(a.0, a.1, a.2, a.3);
            let rb = Rect::new(b.0, b.1, b.2, b.3);
            assert_eq!(ra.overlaps(&rb), rb.overlaps(&ra));
        }
    }
}
