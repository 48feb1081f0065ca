use iron_canvas_core::chrome::FrameKindTag;
use iron_canvas_core::chrome::Chrome;
use iron_canvas_core::chrome::construct::{FramePath, FreshBuild, row_header_thickness_for};
use iron_canvas_core::chrome::recycled_slots::RecycledSlots;
use iron_canvas_core::chrome::reuse::{PreparedBlitOutcome, try_blit_reuse};
use iron_canvas_core::frame::delta::FrameDelta;
use iron_canvas_core::frame::inputs::{FrameInputs, InputReads};
use iron_canvas_core::geometry::slot::{AxisSlot, RowSlot};
use iron_canvas_core::chrome::classify::ActiveCellSnapshot;
use iron_canvas_core::{CanvasView, Fetched, Point, RCRange};

fn reads(top_row: i32, left_column: i32, frozen_rows: i32) -> InputReads {
    InputReads {
        sheet: Some(0),
        view: Some(CanvasView {
            sheet: 0,
            row: 6,
            column: 4,
            selection: RCRange { r1: 6, c1: 4, r2: 6, c2: 4 },
            top_row,
            left_column,
        }),
        frozen_rows: Some(frozen_rows),
        frozen_cols: Some(0),
        show_row_headers: Some(true),
        show_col_headers: Some(true),
        show_selection: true,
    }
}

fn inputs(top_row: i32, left_column: i32, frozen_rows: i32) -> FrameInputs {
    FrameInputs::capture(reads(top_row, left_column, frozen_rows), 400, 300, 1).expect("valid reads")
}

fn row_label(row: i32) -> String {
    format!("{row}")
}

fn col_label(col: i32) -> String {
    format!("C{col}")
}

fn built(fi: &FrameInputs) -> Chrome {
    match Chrome::build(fi, RecycledSlots::default(), 1000, 100, |_| Some(20), |_| Some(50), row_label, col_label) {
        FreshBuild::Ready(c) => c,
        FreshBuild::Held(_) => panic!("every read succeeds"),
    }
}

#[test]
fn build_lays_out_rows_then_sizes_the_header_then_columns() {
    let c = built(&inputs(5, 3, 2));
    assert_eq!(c.cell_origin, Point { x: 31, y: 29 });
    assert_eq!(c.canvas_size(), (400, 300));
    assert_eq!(c.kind, FrameKindTag::Fresh);
    assert_eq!(c.row_header_thickness, 30);
    assert_eq!(c.col_header_thickness, 28);
    let frozen: Vec<(i32, i32)> = c.pane_set.rows.frozen.iter().map(|s| (s.row, s.top)).collect();
    assert_eq!(frozen, vec![(1, 29), (2, 49)]);
    assert_eq!(c.pane_set.rows.frozen_offset, 72);
    assert_eq!(c.pane_set.rows.scroll[0].row, 5);
    assert_eq!(c.pane_set.rows.scroll[0].top, 72);
    let last = c.pane_set.rows.scroll.last().expect("rows");
    assert!(last.top >= 300);
    assert_eq!(c.pane_set.cols.scroll[0].col, 3);
    assert_eq!(c.pane_set.cols.scroll[0].left, 31);
    assert_eq!(c.pane_set.rows.last_id, 1000);
    assert_eq!(c.pane_set.row_header_labels[0], "1");
    assert_eq!(c.pane_set.row_header_labels[2], "5");
    assert_eq!(c.pane_set.col_header_labels[0], "C3");
    assert_eq!(c.pane_set.row_header_labels.len(), c.pane_set.rows.frozen.len() + c.pane_set.rows.scroll.len());
}

#[test]
fn build_holds_when_a_read_fails() {
    let fi = inputs(5, 3, 0);
    let held = Chrome::build(&fi, RecycledSlots::default(), 1000, 100, |id| if id == 9 { None } else { Some(20) }, |_| Some(50), row_label, col_label);
    assert!(matches!(held, FreshBuild::Held(_)));
    let held = Chrome::build(&fi, RecycledSlots::default(), 1000, 100, |_| Some(20), |_| None, row_label, col_label);
    assert!(matches!(held, FreshBuild::Held(_)));
}

#[test]
fn header_thickness_grows_with_the_widest_label_and_vanishes_when_hidden() {
    let short = vec![RowSlot::new(9, 0, 20)];
    let long = vec![RowSlot::new(100000, 0, 20)];
    assert_eq!(row_header_thickness_for(&short, 0, 1, true), 30);
    assert_eq!(row_header_thickness_for(&long, 0, 1, true), 56);
    assert_eq!(row_header_thickness_for(&long, 0, 1, false), 0);
    assert_eq!(row_header_thickness_for(&[], 3, 1, true), 30);
}

#[test]
fn slots_reuse_refreshes_only_the_attempt_scalars() {
    let prev = built(&inputs(5, 3, 0));
    let later = FrameInputs::capture(reads(5, 3, 0), 400, 300, 7).expect("valid");
    match Chrome::next(Some(prev.clone()), &later, FramePath::SlotsReuse, 1000, 100, |_| Some(1), |_| Some(1), row_label, col_label) {
        FreshBuild::Ready(c) => {
            assert_eq!(c.model_generation, 7);
            assert_eq!(c.kind, FrameKindTag::SlotsReused);
            assert_eq!(c.pane_set.rows.scroll.len(), prev.pane_set.rows.scroll.len());
            assert_eq!(c.pane_set.rows.scroll[0].height, 20);
        },
        FreshBuild::Held(_) => panic!("reuse never holds"),
    }
}

#[test]
fn blit_reuse_rebuilds_the_scrolled_band_and_rolls_back_exactly() {
    let prev = built(&inputs(5, 3, 0));
    let next = inputs(7, 3, 0);
    let snap = ActiveCellSnapshot::capture(6, 4, Fetched::Absent);
    let plan = match Chrome::classify(Some(&prev), &next, true, true, Some(&snap), |_, _| Fetched::Absent, |_| Some(20), |_| Some(50)) {
        FrameDelta::Scroll(plan) => plan,
        other => panic!("expected a scroll, got {other:?}"),
    };
    match try_blit_reuse(prev.clone(), &next, &plan, true, |_| Some(20), |_| Some(50), row_label, col_label) {
        PreparedBlitOutcome::Ready(prepared) => {
            let candidate = prepared.frame();
            assert_eq!(candidate.pane_set.rows.scroll[0].row, 7);
            assert_eq!(candidate.pane_set.rows.scroll[0].top, prev.pane_set.rows.frozen_offset);
            assert_eq!(candidate.pane_set.cols.scroll.len(), prev.pane_set.cols.scroll.len());
            assert_eq!(candidate.pane_set.row_header_labels[0], "7");
            assert_eq!(candidate.kind, FrameKindTag::Blitted);
            let restored = prepared.rollback();
            assert_eq!(restored.kind, FrameKindTag::Fresh);
            assert_eq!(restored.pane_set.rows.scroll[0].row, 5);
            assert_eq!(restored.pane_set.row_header_labels, prev.pane_set.row_header_labels);
            assert_eq!(restored.pane_set.rows.scroll.len(), prev.pane_set.rows.scroll.len());
        },
        PreparedBlitOutcome::FreshFallback(_) => panic!("the reuse qualifies"),
    }
}

#[test]
fn blit_reuse_hands_the_frame_back_on_a_digit_boundary() {
    let mut prev = built(&inputs(5, 3, 0));
    prev.row_header_thickness = 29;
    let next = inputs(7, 3, 0);
    let plan = iron_canvas_core::chrome::blit::try_blit_rows(&prev, 7, |_| Some(20)).expect("plan");
    match try_blit_reuse(prev.clone(), &next, &plan, true, |_| Some(20), |_| Some(50), row_label, col_label) {
        PreparedBlitOutcome::FreshFallback(c) => assert_eq!(c.row_header_thickness, 29),
        PreparedBlitOutcome::Ready(_) => panic!("the header width changed"),
    }
    let drained = RecycledSlots::from_pane_set(prev.pane_set.clone());
    assert!(drained.frozen_rows.is_empty() && drained.scroll_rows.is_empty());
}
