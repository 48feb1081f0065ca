use iron_canvas_core::chrome::FrameKindTag;
use iron_canvas_core::chrome::Chrome;
use iron_canvas_core::chrome::blit::{
    PaneShift, ShiftDir, overlaps_match, probe_axis_shift, rebuild_axis_slots, try_blit_cols, try_blit_rows,
};
use iron_canvas_core::chrome::mask::PaneRegionMask;
use iron_canvas_core::chrome::pane_region::PaneRegion;
use iron_canvas_core::chrome::pane_set::PaneSet;
use iron_canvas_core::frame::delta::{AxisRange, BlitPlan};
use iron_canvas_core::geometry::slot::{AxisSlot, AxisSlots, ColSlot, RowSlot};
use iron_canvas_core::{Axis, PixelRect, Point};

fn rect(x: i32, y: i32, width: i32, height: i32) -> PixelRect {
    PixelRect { top_left: Point { x, y }, width, height }
}

fn rows(first: i32, count: i32, start: i32, height: i32) -> Vec<RowSlot> {
    (0..count).map(|i| RowSlot::new(first + i, start + i * height, height)).collect()
}

fn cols(first: i32, count: i32, start: i32, width: i32) -> Vec<ColSlot> {
    (0..count).map(|i| ColSlot::new(first + i, start + i * width, width)).collect()
}

/// A 400x300 frame with no frozen bands: rows 5.. of 20 px from y = 29,
/// columns 3.. of 50 px from x = 31.
fn frame() -> Chrome {
    Chrome {
        sheet: 0,
        pane_set: PaneSet {
            rows: AxisSlots { frozen: Vec::new(), scroll: rows(5, 14, 29, 20), frozen_offset: 29, last_id: 1000 },
            cols: AxisSlots { frozen: Vec::new(), scroll: cols(3, 8, 31, 50), frozen_offset: 31, last_id: 100 },
            row_header_labels: Vec::new(),
            col_header_labels: Vec::new(),
        },
        row_header_thickness: 30,
        col_header_thickness: 28,
        cell_origin: Point { x: 31, y: 29 },
        logical_width: 400,
        logical_height: 300,
        model_generation: 1,
        show_row_headers: true,
        show_col_headers: true,
        kind: FrameKindTag::Fresh,
    }
}

#[test]
fn forward_plan_copies_past_the_leaving_band_and_repaints_to_the_edge() {
    let plan = BlitPlan::for_axis_scroll(
        Axis::Row,
        AxisRange { origin: 30, size: 100 },
        AxisRange { origin: 40, size: 200 },
        20,
        ShiftDir::Forward,
        150,
    );
    assert_eq!(plan.axis, Axis::Row);
    assert_eq!(plan.shift.src, rect(40, 50, 200, 80));
    assert_eq!(plan.shift.dst, rect(40, 30, 200, 80));
    assert_eq!(plan.pixel_strip, rect(40, 110, 200, 40));
}

#[test]
fn backward_plan_copies_from_the_origin_and_repaints_the_near_band() {
    let plan = BlitPlan::for_axis_scroll(
        Axis::Column,
        AxisRange { origin: 30, size: 100 },
        AxisRange { origin: 40, size: 200 },
        20,
        ShiftDir::Backward,
        150,
    );
    assert_eq!(plan.shift.src, rect(30, 40, 80, 200));
    assert_eq!(plan.shift.dst, rect(50, 40, 80, 200));
    assert_eq!(plan.pixel_strip, rect(30, 40, 20, 200));
    assert_eq!(plan.shift_panes(), PaneRegionMask::Right);
}

#[test]
fn strip_never_shorter_than_the_shift() {
    let plan = BlitPlan::for_axis_scroll(
        Axis::Row,
        AxisRange { origin: 0, size: 100 },
        AxisRange { origin: 0, size: 10 },
        30,
        ShiftDir::Forward,
        80,
    );
    assert_eq!(plan.pixel_strip, rect(0, 70, 10, 30));
    assert_eq!(plan.shift_panes(), PaneRegionMask::Bottom);
}

#[test]
fn frozen_band_sibling_replaces_only_the_cross_range() {
    let shift = PaneShift { pane: PaneRegion::BottomRight, src: rect(40, 50, 200, 80), dst: rect(40, 30, 200, 80) };
    let sibling = shift.for_frozen_band(PaneRegion::BottomLeft, Axis::Row, 10, 25);
    assert_eq!(sibling.pane, PaneRegion::BottomLeft);
    assert_eq!(sibling.src, rect(10, 50, 25, 80));
    assert_eq!(sibling.dst, rect(10, 30, 25, 80));
}

#[test]
fn overlaps_match_rejects_changed_or_failed_extents() {
    let band = rows(5, 4, 48, 20);
    assert!(overlaps_match(&band, &|_| Some(20)));
    assert!(!overlaps_match(&band, &|id| if id == 7 { Some(25) } else { Some(20) }));
    assert!(!overlaps_match(&band, &|id| if id == 8 { None } else { Some(20) }));
}

#[test]
fn probe_accepts_a_forward_shift_whose_kept_band_still_measures() {
    let band = rows(5, 4, 48, 20);
    assert_eq!(probe_axis_shift(&band, 6, 48, 100, |_| Some(20)), Some((20, ShiftDir::Forward)));
    assert_eq!(probe_axis_shift(&band, 7, 48, 100, |_| Some(20)), Some((40, ShiftDir::Forward)));
    assert_eq!(probe_axis_shift(&band, 6, 48, 100, |id| if id == 8 { Some(30) } else { Some(20) }), None);
    assert_eq!(probe_axis_shift(&band, 9, 48, 100, |_| Some(20)), None);
    assert_eq!(probe_axis_shift(&band, 6, 48, 20, |_| Some(20)), None);
}

#[test]
fn probe_sums_the_revealed_strip_on_a_backward_shift() {
    let band = rows(5, 4, 48, 20);
    assert_eq!(probe_axis_shift(&band, 3, 48, 100, |id| if id < 5 { Some(10 + id) } else { Some(20) }), Some((27, ShiftDir::Backward)));
    assert_eq!(probe_axis_shift(&band, 3, 48, 100, |id| Some(10 + id)), None);
    assert_eq!(probe_axis_shift(&band, 3, 48, 100, |id| if id == 3 { None } else { Some(20) }), Some((20, ShiftDir::Backward)));
    assert_eq!(probe_axis_shift(&band, 5, 48, 100, |_| Some(20)), None);
    assert_eq!(probe_axis_shift::<RowSlot, _>(&[], 3, 48, 100, |_| Some(20)), None);
}

#[test]
fn forward_rebuild_keeps_the_band_and_tops_up_to_the_edge() {
    let band = rows(5, 4, 48, 20);
    let rebuilt = rebuild_axis_slots(&band, 48, 140, 6, 100, |_| Some(20)).expect("shift fits");
    let got: Vec<(i32, i32, i32)> = rebuilt.iter().map(|s| (s.row, s.top, s.height)).collect();
    assert_eq!(got, vec![(6, 48, 20), (7, 68, 20), (8, 88, 20), (9, 108, 20), (10, 128, 20), (11, 148, 20)]);
}

#[test]
fn backward_rebuild_walks_the_strip_and_shifts_the_kept_band() {
    let band = rows(5, 4, 48, 20);
    let rebuilt = rebuild_axis_slots(&band, 48, 140, 4, 100, |id| if id == 4 { Some(15) } else { Some(99) }).expect("shift fits");
    let got: Vec<(i32, i32, i32)> = rebuilt.iter().map(|s| (s.row, s.top, s.height)).collect();
    assert_eq!(got, vec![(4, 48, 15), (5, 63, 20), (6, 83, 20), (7, 103, 20), (8, 123, 99), (9, 222, 99)]);
}

#[test]
fn rebuild_rejects_no_move_a_too_far_shift_and_failed_reads() {
    let band = rows(5, 4, 48, 20);
    assert!(rebuild_axis_slots(&band, 48, 140, 5, 100, |_| Some(20)).is_none());
    assert!(rebuild_axis_slots(&band, 48, 140, 9, 100, |_| Some(20)).is_none());
    assert!(rebuild_axis_slots(&band, 48, 140, 4, 100, |_| None).is_none());
    assert!(rebuild_axis_slots::<RowSlot, _>(&[], 48, 140, 4, 100, |_| Some(20)).is_none());
}

#[test]
fn rebuild_trims_to_one_slot_past_the_edge_and_stops_at_the_last_id() {
    let band = rows(5, 6, 0, 20);
    let rebuilt = rebuild_axis_slots(&band, 0, 30, 4, 100, |_| Some(20)).expect("shift fits");
    let got: Vec<i32> = rebuilt.iter().map(|s| s.row).collect();
    assert_eq!(got, vec![4, 5, 6]);
    let capped = rebuild_axis_slots(&band, 0, 1000, 6, 11, |_| Some(20)).expect("shift fits");
    assert_eq!(capped.last().map(|s| s.row), Some(11));
}

#[test]
fn row_scroll_plan_spans_the_pane_to_the_canvas_edge() {
    let prev = frame();
    let plan = try_blit_rows(&prev, 7, |_| Some(20)).expect("kept band matches");
    assert_eq!(plan.axis, Axis::Row);
    assert_eq!(plan.shift.src, rect(31, 69, 369, 231));
    assert_eq!(plan.shift.dst, rect(31, 29, 369, 231));
    assert_eq!(plan.pixel_strip, rect(31, 260, 369, 40));
    assert!(try_blit_rows(&prev, 7, |_| Some(21)).is_none());
}

#[test]
fn column_scroll_plan_mirrors_the_row_plan() {
    let prev = frame();
    let plan = try_blit_cols(&prev, 2, |_| Some(50)).expect("kept band matches");
    assert_eq!(plan.axis, Axis::Column);
    assert_eq!(plan.shift.src, rect(31, 29, 319, 271));
    assert_eq!(plan.shift.dst, rect(81, 29, 319, 271));
    assert_eq!(plan.pixel_strip, rect(31, 29, 50, 271));
}
