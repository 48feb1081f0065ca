use iron_canvas_core::chrome::FrameKindTag;
use iron_canvas_core::chrome::Chrome;
use iron_canvas_core::chrome::classify::{ActiveCellSnapshot, hash_cell_value};
use iron_canvas_core::chrome::pane_set::PaneSet;
use iron_canvas_core::frame::delta::{FrameDelta, RebuildReason};
use iron_canvas_core::frame::inputs::{FrameInputFailure, FrameInputs, InputReads};
use iron_canvas_core::geometry::slot::{AxisSlot, AxisSlots, ColSlot, RowSlot};
use iron_canvas_core::{Axis, CanvasView, Fetched, Point, RCRange};

fn rows(first: i32, count: i32, start: i32, height: i32) -> Vec<RowSlot> {
    (0..count).map(|i| RowSlot::new(first + i, start + i * height, height)).collect()
}

fn cols(first: i32, count: i32, start: i32, width: i32) -> Vec<ColSlot> {
    (0..count).map(|i| ColSlot::new(first + i, start + i * width, width)).collect()
}

fn frame() -> Chrome {
    Chrome {
        sheet: 0,
        pane_set: PaneSet {
            rows: AxisSlots { frozen: Vec::new(), scroll: rows(5, 14, 29, 20), frozen_offset: 29, last_id: 1000 },
            cols: AxisSlots { frozen: Vec::new(), scroll: cols(3, 8, 31, 50), frozen_offset: 31, last_id: 100 },
            row_header_labels: Vec::new(),
            col_header_labels: Vec::new(),
        },
        row_header_thickness: 30,
        col_header_thickness: 28,
        cell_origin: Point { x: 31, y: 29 },
        logical_width: 400,
        logical_height: 300,
        model_generation: 1,
        show_row_headers: true,
        show_col_headers: true,
        kind: FrameKindTag::Fresh,
    }
}

fn view(top_row: i32, left_column: i32) -> CanvasView {
    CanvasView {
        sheet: 0,
        row: 6,
        column: 4,
        selection: RCRange { r1: 6, c1: 4, r2: 6, c2: 4 },
        top_row,
        left_column,
    }
}

fn reads(top_row: i32, left_column: i32) -> InputReads {
    InputReads {
        sheet: Some(0),
        view: Some(view(top_row, left_column)),
        frozen_rows: Some(0),
        frozen_cols: Some(0),
        show_row_headers: Some(true),
        show_col_headers: Some(true),
        show_selection: true,
    }
}

fn inputs(top_row: i32, left_column: i32) -> FrameInputs {
    FrameInputs::capture(reads(top_row, left_column), 400, 300, 1).expect("reads are valid")
}

fn value(_row: i32, _col: i32) -> Fetched<String> {
    Fetched::Value("42".to_string())
}

fn snapshot() -> ActiveCellSnapshot {
    ActiveCellSnapshot::capture(6, 4, Fetched::Value("42".to_string()))
}

#[test]
fn capture_reports_the_first_failed_read_in_read_order() {
    let mut r = reads(5, 3);
    r.sheet = None;
    r.show_col_headers = None;
    assert_eq!(FrameInputs::capture(r, 400, 300, 1).err(), Some(FrameInputFailure::SelectedSheet));
    let mut r = reads(5, 3);
    r.view = None;
    assert_eq!(FrameInputs::capture(r, 400, 300, 1).err(), Some(FrameInputFailure::SelectedView));
    let mut r = reads(5, 3);
    r.sheet = Some(1);
    assert_eq!(FrameInputs::capture(r, 400, 300, 1).err(), Some(FrameInputFailure::SheetMismatch));
    let mut r = reads(5, 3);
    r.frozen_rows = None;
    assert_eq!(FrameInputs::capture(r, 400, 300, 1).err(), Some(FrameInputFailure::FrozenRows));
    let mut r = reads(5, 3);
    r.frozen_rows = Some(-1);
    assert_eq!(FrameInputs::capture(r, 400, 300, 1).err(), Some(FrameInputFailure::InvalidFrozenRowCount));
    let mut r = reads(5, 3);
    r.frozen_cols = None;
    assert_eq!(FrameInputs::capture(r, 400, 300, 1).err(), Some(FrameInputFailure::FrozenColumns));
    let mut r = reads(5, 3);
    r.frozen_cols = Some(16385);
    assert_eq!(FrameInputs::capture(r, 400, 300, 1).err(), Some(FrameInputFailure::InvalidFrozenColumnCount));
    let mut r = reads(5, 3);
    r.show_row_headers = None;
    assert_eq!(FrameInputs::capture(r, 400, 300, 1).err(), Some(FrameInputFailure::RowHeaderVisibility));
    let mut r = reads(5, 3);
    r.show_col_headers = None;
    assert_eq!(FrameInputs::capture(r, 400, 300, 1).err(), Some(FrameInputFailure::ColumnHeaderVisibility));
}

#[test]
fn capture_keeps_every_accepted_read() {
    let fi = inputs(5, 3);
    assert_eq!(fi.sheet(), 0);
    assert_eq!(fi.view().top_row, 5);
    assert_eq!(fi.frozen_rows(), 0);
    assert_eq!(fi.frozen_cols(), 0);
    assert!(fi.show_row_headers() && fi.show_col_headers() && fi.show_selection());
    assert_eq!(fi.logical_extent(), (400, 300));
    assert_eq!(fi.model_generation(), 1);
    assert_eq!(FrameInputFailure::from_code(FrameInputFailure::InvalidFrozenColumnCount.code()), Some(FrameInputFailure::InvalidFrozenColumnCount));
    assert_eq!(FrameInputFailure::from_code(9), None);
}

#[test]
fn value_digests_separate_unknown_from_empty() {
    assert_eq!(hash_cell_value(Fetched::BridgeFailed), None);
    assert_eq!(hash_cell_value(Fetched::Absent), hash_cell_value(Fetched::Value(String::new())));
    assert_ne!(hash_cell_value(Fetched::Value("a".to_string())), hash_cell_value(Fetched::Value("b".to_string())));
    let snap = snapshot();
    assert!(snap.matches(Fetched::Value("42".to_string())));
    assert!(!snap.matches(Fetched::Value("43".to_string())));
    assert!(!snap.matches(Fetched::BridgeFailed));
    assert!(!ActiveCellSnapshot::capture(6, 4, Fetched::BridgeFailed).matches(Fetched::Value("42".to_string())));
}

#[test]
fn classify_rebuilds_without_a_committed_frame_or_on_hard_breaks_in_order() {
    let fi = inputs(5, 3);
    let snap = snapshot();
    let measure = |_id: i32| Some(20);
    assert_eq!(
        Chrome::classify(None, &fi, true, true, Some(&snap), value, measure, measure),
        FrameDelta::Rebuild(RebuildReason::NoCommittedFrame)
    );
    let prev = frame();
    let smaller = FrameInputs::capture(reads(5, 3), 399, 300, 2).expect("valid");
    assert_eq!(
        Chrome::classify(Some(&prev), &smaller, false, false, Some(&snap), value, measure, measure),
        FrameDelta::Rebuild(RebuildReason::Size)
    );
    assert_eq!(
        Chrome::classify(Some(&prev), &fi, false, false, Some(&snap), value, measure, measure),
        FrameDelta::Rebuild(RebuildReason::Dpr)
    );
    assert_eq!(
        Chrome::classify(Some(&prev), &fi, true, false, Some(&snap), value, measure, measure),
        FrameDelta::Rebuild(RebuildReason::Theme)
    );
    let newer = FrameInputs::capture(reads(5, 3), 400, 300, 2).expect("valid");
    assert_eq!(
        Chrome::classify(Some(&prev), &newer, true, true, Some(&snap), value, measure, measure),
        FrameDelta::Rebuild(RebuildReason::Model)
    );
    let mut frozen = reads(5, 3);
    frozen.frozen_rows = Some(2);
    let frozen = FrameInputs::capture(frozen, 400, 300, 1).expect("valid");
    assert_eq!(
        Chrome::classify(Some(&prev), &frozen, true, true, Some(&snap), value, measure, measure),
        FrameDelta::Rebuild(RebuildReason::Freeze)
    );
    let mut hidden = reads(5, 3);
    hidden.show_row_headers = Some(false);
    let hidden = FrameInputs::capture(hidden, 400, 300, 1).expect("valid");
    assert_eq!(
        Chrome::classify(Some(&prev), &hidden, true, true, Some(&snap), value, measure, measure),
        FrameDelta::Rebuild(RebuildReason::Headers)
    );
}

#[test]
fn classify_forks_on_the_scroll_origins() {
    let prev = frame();
    let snap = snapshot();
    let measure = |_id: i32| Some(20);
    let wide = |_id: i32| Some(50);
    assert_eq!(
        Chrome::classify(Some(&prev), &inputs(5, 3), true, true, Some(&snap), value, measure, wide),
        FrameDelta::Stable
    );
    assert_eq!(
        Chrome::classify(Some(&prev), &inputs(7, 4), true, true, Some(&snap), value, measure, wide),
        FrameDelta::Rebuild(RebuildReason::TwoAxisScroll)
    );
    assert_eq!(
        Chrome::classify(Some(&prev), &inputs(7, 3), true, true, None, value, measure, wide),
        FrameDelta::Rebuild(RebuildReason::MissingActiveSnapshot)
    );
    let edited = |_row: i32, _col: i32| Fetched::Value("43".to_string());
    assert_eq!(
        Chrome::classify(Some(&prev), &inputs(7, 3), true, true, Some(&snap), edited, measure, wide),
        FrameDelta::Rebuild(RebuildReason::ActiveCellChangedOrUnknown)
    );
    match Chrome::classify(Some(&prev), &inputs(7, 3), true, true, Some(&snap), value, measure, wide) {
        FrameDelta::Scroll(plan) => assert_eq!(plan.axis, Axis::Row),
        other => panic!("expected a scroll, got {other:?}"),
    }
    assert_eq!(
        Chrome::classify(Some(&prev), &inputs(7, 3), true, true, Some(&snap), value, |_| Some(21), wide),
        FrameDelta::Rebuild(RebuildReason::IncompatibleScrollOverlap)
    );
}
