use iron_canvas_core::orchestrator::query::origin_showing;

fn rows_20(_id: i32) -> Option<i32> {
    Some(20)
}

#[test]
fn origin_showing_does_not_overflow_on_large_valid_extents() {
    assert_eq!(origin_showing(3, 1, 0, 100, |_| Some(i32::MAX)), Some(3));
}

#[test]
fn query_stays_put_when_there_is_nothing_to_scroll() {
    assert_eq!(origin_showing(50, 7, 0, 0, rows_20), Some(7));
    assert_eq!(origin_showing(50, 7, 0, -100, rows_20), Some(7));
    assert_eq!(origin_showing(2, 7, 3, 500, rows_20), Some(7));
}

#[test]
fn query_flushes_against_the_near_edge_when_scrolled_past() {
    assert_eq!(origin_showing(5, 20, 0, 500, rows_20), Some(5));
}

#[test]
fn query_leaves_an_already_visible_target_alone() {
    assert_eq!(origin_showing(12, 10, 0, 100, rows_20), Some(10));
}

#[test]
fn query_walks_back_to_the_smallest_origin_that_shows_the_target() {
    assert_eq!(origin_showing(30, 2, 0, 100, rows_20), Some(26));
}

fn rows_uneven(id: i32) -> Option<i32> {
    Some(8 + id.rem_euclid(5) * 11)
}

#[test]
fn query_walk_sums_actual_row_heights_rather_than_assuming_uniform_rows() {
    assert_eq!(origin_showing(30, 2, 0, 100, rows_uneven), Some(29));
}

#[test]
fn a_failed_height_read_yields_no_origin() {
    assert_eq!(origin_showing(30, 2, 0, 100, |id| if id == 29 { None } else { Some(20) }), None);
}
