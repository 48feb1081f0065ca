use iron_canvas_core::chrome::pane_region::PaneRegion;
use iron_canvas_core::decoration::classify_ref_zone;
use iron_canvas_core::{PixelRect, Point, RectCorner, RefZone, Side};

fn rect(x: i32, y: i32, width: i32, height: i32) -> PixelRect {
    PixelRect { top_left: Point { x, y }, width, height }
}

#[test]
fn intersection_returns_positive_overlap() {
    assert_eq!(rect(1, 2, 8, 7).intersection(rect(5, 4, 8, 9)), Some(rect(5, 4, 4, 5)));
}

#[test]
fn intersection_rejects_edge_only_contact_and_disjoint_rects() {
    assert_eq!(rect(0, 0, 5, 5).intersection(rect(5, 0, 4, 4)), None);
    assert_eq!(rect(0, 0, 5, 5).intersection(rect(8, 8, 2, 2)), None);
}

#[test]
fn intersection_clamps_to_canvas_bounds() {
    assert_eq!(rect(-3, -4, 10, 12).intersection(rect(0, 0, 100, 50)), Some(rect(0, 0, 7, 8)));
}

#[test]
fn bounding_union_contains_both_rects() {
    assert_eq!(rect(4, 8, 5, 3).bounding_union(rect(-2, 10, 4, 9)), rect(-2, 8, 11, 11));
}

#[test]
fn corners_run_clockwise_from_top_left() {
    let r = rect(10, 20, 30, 40);
    assert_eq!(
        r.corners(),
        [Point { x: 10, y: 20 }, Point { x: 40, y: 20 }, Point { x: 40, y: 60 }, Point { x: 10, y: 60 }]
    );
    assert_eq!(r.center(), Point { x: 25, y: 40 });
    assert_eq!(r.inset(1, 2), rect(11, 22, 28, 36));
}

#[test]
fn pane_region_index_uses_canonical_order() {
    assert_eq!(PaneRegion::TopLeft.index(), 0);
    assert_eq!(PaneRegion::TopRight.index(), 1);
    assert_eq!(PaneRegion::BottomLeft.index(), 2);
    assert_eq!(PaneRegion::BottomRight.index(), 3);
}

#[test]
fn classify_body_inside_rect() {
    assert_eq!(classify_ref_zone(rect(100, 100, 200, 80), 200, 140, 8), Some(RefZone::Body));
}

#[test]
fn classify_corner_top_left() {
    assert_eq!(
        classify_ref_zone(rect(100, 100, 200, 80), 102, 103, 8),
        Some(RefZone::Corner(RectCorner::TopLeft))
    );
}

#[test]
fn classify_corner_bottom_right() {
    assert_eq!(
        classify_ref_zone(rect(100, 100, 200, 80), 297, 178, 8),
        Some(RefZone::Corner(RectCorner::BottomRight))
    );
}

#[test]
fn classify_edge_right() {
    assert_eq!(classify_ref_zone(rect(100, 100, 200, 80), 298, 140, 8), Some(RefZone::Edge(Side::Right)));
}

#[test]
fn classify_outside_rect_returns_none() {
    let r = rect(100, 100, 200, 80);
    assert_eq!(classify_ref_zone(r, 50, 50, 8), None);
    assert_eq!(classify_ref_zone(r, 400, 200, 8), None);
}

#[test]
fn classify_edges_and_remaining_corners() {
    let r = rect(100, 100, 200, 80);
    assert_eq!(classify_ref_zone(r, 200, 95, 8), Some(RefZone::Edge(Side::Top)));
    assert_eq!(classify_ref_zone(r, 200, 185, 8), Some(RefZone::Edge(Side::Bottom)));
    assert_eq!(classify_ref_zone(r, 92, 140, 8), Some(RefZone::Edge(Side::Left)));
    assert_eq!(classify_ref_zone(r, 305, 95, 8), Some(RefZone::Corner(RectCorner::TopRight)));
    assert_eq!(classify_ref_zone(r, 95, 185, 8), Some(RefZone::Corner(RectCorner::BottomLeft)));
    assert_eq!(classify_ref_zone(r, 309, 140, 8), None);
}

#[test]
fn intersects_tests_against_the_drawable_area() {
    assert!(rect(0, 0, 10, 10).intersects(100, 50));
    assert!(rect(90, 40, 30, 30).intersects(100, 50));
    // Starts on the right edge: off canvas.
    assert!(!rect(100, 0, 10, 10).intersects(100, 50));
    // Ends on the left edge: off canvas.
    assert!(!rect(-10, 0, 10, 10).intersects(100, 50));
    assert!(!rect(0, 50, 10, 10).intersects(100, 50));
    assert!(!rect(0, -10, 10, 10).intersects(100, 50));
    assert!(rect(-10, -10, 11, 11).intersects(100, 50));
}
