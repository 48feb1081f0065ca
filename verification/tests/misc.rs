use iron_canvas_core::chrome::FrameKindTag;
use iron_canvas_core::autofit::{AutoFitError, FIT_SCAN_CAP, capped_range};
use iron_canvas_core::chrome::Chrome;
use iron_canvas_core::chrome::mask::PaneRegionMask;
use iron_canvas_core::chrome::pane_region::PaneRegion;
use iron_canvas_core::chrome::pane_set::PaneSet;
use iron_canvas_core::diagnostics::{DiagCache, DiagCacheResolution, DiagDeltaKind};
use iron_canvas_core::frame::delta::{FrameDelta, RebuildReason};
use iron_canvas_core::geometry::slot::{AxisSlot, AxisSlots, ColSlot, RowSlot};
use iron_canvas_core::orchestrator::query::{legal_scroll_origin, scroll_to_show};
use iron_canvas_core::painter::{CssColor, GroupClass, PaintColor};
use iron_canvas_core::{CanvasView, PixelRect, Point, RCRange};

fn frame() -> Chrome {
    Chrome {
        sheet: 0,
        pane_set: PaneSet {
            rows: AxisSlots {
                frozen: vec![RowSlot::new(1, 29, 20)],
                scroll: (0..12).map(|i| RowSlot::new(5 + i, 52 + i * 20, 20)).collect(),
                frozen_offset: 52,
                last_id: 1000,
            },
            cols: AxisSlots {
                frozen: Vec::new(),
                scroll: (0..8).map(|i| ColSlot::new(1 + i, 31 + i * 50, 50)).collect(),
                frozen_offset: 31,
                last_id: 100,
            },
            row_header_labels: Vec::new(),
            col_header_labels: Vec::new(),
        },
        row_header_thickness: 30,
        col_header_thickness: 28,
        cell_origin: Point { x: 31, y: 29 },
        logical_width: 400,
        logical_height: 300,
        model_generation: 1,
        show_row_headers: true,
        show_col_headers: true,
        kind: FrameKindTag::Fresh,
    }
}

fn view(top_row: i32, left_column: i32) -> CanvasView {
    CanvasView { sheet: 0, row: 1, column: 1, selection: RCRange::default(), top_row, left_column }
}

#[test]
fn capped_range_keeps_the_entries_nearest_the_start() {
    assert_eq!(capped_range(5, 3), (5, 3));
    assert_eq!(capped_range(1, 10), (1, 10));
    assert_eq!(capped_range(1, 50000), (1, FIT_SCAN_CAP));
    assert_eq!(capped_range(i32::MAX - 2, i32::MAX), (i32::MAX - 2, i32::MAX));
    assert_eq!(AutoFitError::CellStyle.message(), "a cell style could not be read");
}

#[test]
fn group_classes_and_colours_are_normalized_text() {
    assert_eq!(GroupClass::FrozenSep.as_str(), "frozen-sep");
    assert_eq!(GroupClass::ActiveCellRepaint.as_str(), "active-cell-repaint");
    assert_eq!(CssColor::new("#ABCDEF".to_string()).into_string(), "#abcdef");
    assert_eq!(CssColor::new(String::new()).into_string(), "#000000");
    assert_eq!(PaintColor::Static("red").as_str(), "red");
}

#[test]
fn mask_union_collects_quadrants() {
    let m = PaneRegionMask::EMPTY.with(PaneRegion::BottomLeft).with(PaneRegion::BottomRight);
    assert_eq!(m, PaneRegionMask::Bottom);
    assert!(m.contains(PaneRegion::BottomLeft) && !m.contains(PaneRegion::TopLeft));
    assert_eq!(m.union(PaneRegionMask::TOP_LEFT).union(PaneRegionMask::TOP_RIGHT), PaneRegionMask::ALL);
    assert_eq!(PaneRegionMask::from_bits(0x1f), PaneRegionMask::ALL);
}

#[test]
fn diagnostics_name_the_delta_kind_and_default_to_committed() {
    assert_eq!(DiagDeltaKind::from(&FrameDelta::Stable), DiagDeltaKind::Stable);
    assert_eq!(DiagDeltaKind::from(&FrameDelta::Rebuild(RebuildReason::Size)), DiagDeltaKind::Rebuild);
    assert_eq!(DiagCache::default().resolution, DiagCacheResolution::Committed);
}

#[test]
fn scroll_pane_and_cell_queries_read_the_painted_bands() {
    let f = frame();
    assert_eq!(f.scroll_pane_rect(), PixelRect { top_left: Point { x: 31, y: 52 }, width: 369, height: 248 });
    assert_eq!(f.pixel_to_cell(40, 30), Some((1, 1)));
    assert_eq!(f.pixel_to_cell(40, 60), Some((5, 1)));
    assert_eq!(f.pixel_to_cell(10, 60), None);
}

#[test]
fn legal_origin_clamps_past_the_frozen_band() {
    assert_eq!(legal_scroll_origin(view(1, 1), Some(3), None), (4, 1));
    assert_eq!(legal_scroll_origin(view(9, 2), Some(3), Some(1)), (9, 2));
}

#[test]
fn scroll_to_show_moves_only_when_the_target_is_hidden() {
    let f = frame();
    assert_eq!(scroll_to_show(&f, view(5, 1), 6, 2, |_| Some(20), |_| Some(50)), None);
    assert_eq!(scroll_to_show(&f, view(5, 1), 30, 2, |_| Some(20), |_| Some(50)), Some((19, 1)));
    assert_eq!(scroll_to_show(&f, view(5, 1), 1, 12, |_| Some(20), |_| Some(50)), Some((5, 6)));
    assert_eq!(scroll_to_show(&f, view(5, 1), 30, 2, |_| None, |_| Some(50)), None);
}
