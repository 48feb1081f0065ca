use iron_canvas_core::chrome::FrameKindTag;
use iron_canvas_core::chrome::Chrome;
use iron_canvas_core::chrome::pane_set::PaneSet;
use iron_canvas_core::decoration::{
    AutofillLayer, ClipboardLayer, Decorations, FormulaRefsLayer, PointModeLayer, RenderOverlays,
};
use iron_canvas_core::geometry::slot::{AxisSlot, AxisSlots, ColSlot, RowSlot};
use iron_canvas_core::painter::GroupClass;
use iron_canvas_core::{
    AutofillTarget, CanvasView, Fetched, FormulaRef, FormulaRefKind, HitTest, PixelRect, Point, RCRange, RefZone,
    SheetArea, Side,
};

fn frame() -> Chrome {
    Chrome {
        sheet: 0,
        pane_set: PaneSet {
            rows: AxisSlots {
                frozen: Vec::new(),
                scroll: (0..14).map(|i| RowSlot::new(1 + i, 29 + i * 20, 20)).collect(),
                frozen_offset: 29,
                last_id: 1000,
            },
            cols: AxisSlots {
                frozen: Vec::new(),
                scroll: (0..8).map(|i| ColSlot::new(1 + i, 31 + i * 50, 50)).collect(),
                frozen_offset: 31,
                last_id: 100,
            },
            row_header_labels: Vec::new(),
            col_header_labels: Vec::new(),
        },
        row_header_thickness: 30,
        col_header_thickness: 28,
        cell_origin: Point { x: 31, y: 29 },
        logical_width: 400,
        logical_height: 300,
        model_generation: 1,
        show_row_headers: true,
        show_col_headers: true,
        kind: FrameKindTag::Fresh,
    }
}

fn rect(x: i32, y: i32, width: i32, height: i32) -> PixelRect {
    PixelRect { top_left: Point { x, y }, width, height }
}

fn direct(range: RCRange, color_idx: usize) -> FormulaRef {
    FormulaRef { sheet_area: SheetArea { sheet: 0, range }, color_idx, kind: FormulaRefKind::Direct }
}

#[test]
fn autofill_preview_grows_the_selection_to_the_target() {
    let layer = AutofillLayer {
        extend_to: Some(AutofillTarget { row: 5, col: 1 }),
        selection_range: RCRange { r1: 2, c1: 3, r2: 1, c2: 2 },
    };
    assert_eq!(layer.preview_range(), Some(RCRange { r1: 1, c1: 1, r2: 5, c2: 3 }));
    assert_eq!(layer.preview_rect(&frame()), Some(rect(31, 29, 150, 100)));
    assert_eq!(AutofillLayer { extend_to: None, selection_range: RCRange::default() }.preview_range(), None);
    assert_eq!(layer.group(), GroupClass::Autofill);
}

#[test]
fn autofill_handle_hit_covers_the_padded_square() {
    let layer = AutofillLayer::default();
    let sel = RCRange { r1: 1, c1: 1, r2: 1, c2: 1 };
    assert_eq!(layer.hit_test(&frame(), sel, 80, 48), Some(HitTest::AutofillHandle { row: 1, column: 1 }));
    assert_eq!(layer.hit_test(&frame(), sel, 82, 50), Some(HitTest::AutofillHandle { row: 2, column: 2 }));
    assert_eq!(layer.hit_test(&frame(), sel, 60, 40), None);
}

#[test]
fn clipboard_and_point_mode_outline_their_ranges_on_the_frame_sheet() {
    let on_sheet = ClipboardLayer { clipboard: Some(SheetArea { sheet: 0, range: RCRange { r1: 2, c1: 2, r2: 2, c2: 2 } }) };
    assert_eq!(on_sheet.marquee_rect(&frame()), Some(rect(81, 49, 50, 20)));
    let elsewhere = ClipboardLayer { clipboard: Some(SheetArea { sheet: 3, range: RCRange { r1: 2, c1: 2, r2: 2, c2: 2 } }) };
    assert_eq!(elsewhere.marquee_rect(&frame()), None);
    let point = PointModeLayer { point_range: Some(RCRange { r1: 1, c1: 1, r2: 2, c2: 1 }) };
    assert_eq!(point.pointed_rect(&frame()), Some(rect(31, 29, 50, 40)));
}

#[test]
fn formula_ref_hit_takes_the_topmost_direct_reference() {
    let mut under = direct(RCRange { r1: 1, c1: 1, r2: 3, c2: 3 }, 0);
    under.color_idx = 4;
    let over = direct(RCRange { r1: 2, c1: 2, r2: 3, c2: 3 }, 1);
    let layer = FormulaRefsLayer { refs: vec![under, over] };
    assert_eq!(
        layer.hit_test(&frame(), 100, 60),
        Some(HitTest::FormulaRef { ref_idx: 1, zone: RefZone::Body, grab_row: 2, grab_column: 2 })
    );
    assert_eq!(
        layer.hit_test(&frame(), 60, 29),
        Some(HitTest::FormulaRef { ref_idx: 0, zone: RefZone::Edge(Side::Top), grab_row: 1, grab_column: 1 })
    );
    let named = FormulaRef { kind: FormulaRefKind::DefinedName, ..over };
    assert_eq!(FormulaRefsLayer { refs: vec![named] }.hit_test(&frame(), 100, 60), None);
    assert_eq!(layer.highlights(&frame()), vec![(rect(31, 29, 150, 60), 4), (rect(81, 49, 100, 40), 1)]);
}

#[test]
fn overlay_setters_report_changes_and_decorations_hit_front_to_back() {
    let mut decos = Decorations::default();
    assert!(decos.set_extend_to(Some(AutofillTarget { row: 1, col: 1 })));
    assert!(!decos.set_extend_to(Some(AutofillTarget { row: 1, col: 1 })));
    assert!(decos.set_point_range(Some(RCRange { r1: 1, c1: 1, r2: 1, c2: 1 })));
    assert!(!decos.set_point_range(Some(RCRange { r1: 1, c1: 1, r2: 1, c2: 1 })));
    let overlays = RenderOverlays {
        extend_to: Some(AutofillTarget { row: 1, col: 1 }),
        clipboard: None,
        point_range: Some(RCRange { r1: 1, c1: 1, r2: 1, c2: 1 }),
        formula_refs: vec![direct(RCRange { r1: 2, c1: 2, r2: 2, c2: 2 }, 0)],
    };
    assert!(decos.set_overlays(overlays.clone()));
    assert!(!decos.set_overlays(overlays));
    assert!(matches!(decos.hit_test(&frame(), RCRange::default(), 100, 55), Some(HitTest::FormulaRef { ref_idx: 0, .. })));
    assert_eq!(decos.hit_test(&frame(), RCRange::default(), 300, 250), None);
}

#[test]
fn refresh_snapshots_the_active_cell_and_anchors_autofill() {
    let mut decos = Decorations::default();
    let view = CanvasView {
        sheet: 0,
        row: 3,
        column: 2,
        selection: RCRange { r1: 3, c1: 2, r2: 4, c2: 2 },
        top_row: 1,
        left_column: 1,
    };
    decos.refresh_overlay_state(&view, true, Fetched::Value("x".to_string()));
    assert_eq!(decos.selection().selection_range, Some(view.selection));
    let repaint = decos.active_cell_repaint().expect("selection shows");
    assert_eq!((repaint.row, repaint.col), (3, 2));
    assert_eq!(decos.selection().fill_rect(&frame()), Some(rect(81, 69, 50, 40)));
    decos.refresh_overlay_state(&view, false, Fetched::Absent);
    assert_eq!(decos.selection().selection_range, None);
    assert!(decos.active_cell_repaint().is_none());
}

#[test]
fn default_selection_layer_holds_no_active_cell() {
    let layer = iron_canvas_core::decoration::SelectionLayer::default();
    assert!(layer.active_cell.is_none());
    assert!(layer.selection_range.is_none());
    assert_eq!(layer.active_cell_repaint(), None);
}
