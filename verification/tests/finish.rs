use iron_canvas_core::chrome::mask::PaneRegionMask;
use iron_canvas_core::frame::inputs::FrameInputFailure;
use iron_canvas_core::frame::plan::RenderStrategy;
use iron_canvas_core::frame::report::{FrameOutcome, FrameTrace, PaintResult};
use iron_canvas_core::frame::work::{ContentWork, PendingWork, RowSpan};
use iron_canvas_core::frame::WorkFlags;
use iron_canvas_core::chrome::pane_set::PaneSet;
use iron_canvas_core::chrome::{Chrome, FrameKindTag};
use iron_canvas_core::geometry::slot::{AxisSlot, AxisSlots, ColSlot, RowSlot};
use iron_canvas_core::orchestrator::finish::{AttemptLedger, AttemptOutcome, FrameUpdate, HoldReason, retry_grid_wide};
use iron_canvas_core::Point;

#[test]
fn finish_bridge_retry_widens_content_and_preserves_other_intent() {
    let mut work = PendingWork::default();
    work.mark_rows(7, RowSpan::new(2, 4));
    work.mark_view();
    work.mark_overlay();

    let retry = retry_grid_wide(work);

    assert_eq!(*retry.content(), ContentWork::Panes(PaneRegionMask::ALL));
    assert!(retry.has_view());
    assert!(retry.has_overlay());
}

#[test]
fn finish_hold_reason_projects_to_the_public_frame_outcome() {
    assert_eq!(
        HoldReason::InputFailure(FrameInputFailure::SelectedSheet).frame_outcome(),
        FrameOutcome::HeldOnInputFailure(FrameInputFailure::SelectedSheet)
    );
    assert_eq!(HoldReason::BridgeFailure.frame_outcome(), FrameOutcome::HeldOnBridgeFailure);
}

#[test]
fn ledger_without_model_or_work_stays_idle() {
    let mut ledger = AttemptLedger::new();
    assert!(ledger.begin(true).is_none());
    ledger.pending.mark_view();
    assert!(ledger.begin(false).is_none());
    assert!(ledger.pending.has_view());
    assert_eq!(ledger.attempt_seq, 0);
}

#[test]
fn held_attempt_requeues_its_work_and_does_not_commit() {
    let mut ledger = AttemptLedger::new();
    ledger.pending.mark_rows(1, RowSpan::new(3, 5));
    let work = ledger.begin(true).expect("work was queued");
    assert_eq!(ledger.attempt_seq, 1);
    assert!(ledger.pending.is_empty());
    let flags = work.flags();
    let before = work.clone();
    let settled = ledger.finish(
        None,
        flags,
        AttemptOutcome::Held { retry: work, frame: FrameUpdate::Preserve, reason: HoldReason::BridgeFailure },
        FrameTrace::default(),
    );
    assert_eq!(settled.result, PaintResult::RetryRequired);
    assert!(!settled.committed);
    assert_eq!(ledger.pending, before);
    assert_eq!(ledger.commit_seq, 0);
    assert_eq!(ledger.last_trace.outcome, FrameOutcome::HeldOnBridgeFailure);
    assert_eq!(ledger.last_trace.committed_seq, None);
    assert_eq!(ledger.last_trace.attempt_seq, 1);
}

#[test]
fn committed_attempt_advances_the_commit_sequence() {
    let mut ledger = AttemptLedger::new();
    ledger.pending.mark_geometry();
    let work = ledger.begin(true).expect("work was queued");
    let settled = ledger.finish(
        Some(RenderStrategy::FullRebuild),
        work.flags(),
        AttemptOutcome::GridCommitted { frame: FrameUpdate::Preserve, effective: RenderStrategy::FullRebuild },
        FrameTrace::default(),
    );
    assert_eq!(settled.result, PaintResult::Rendered);
    assert!(settled.committed && settled.grid_painted);
    assert_eq!(ledger.commit_seq, 1);
    assert_eq!(ledger.last_trace.committed_seq, Some(1));
    assert_eq!(ledger.last_effective_strategy, Some(RenderStrategy::FullRebuild));
    assert_eq!(ledger.last_work_flags, WorkFlags::GEOMETRY);

    let overlay = ledger.finish(None, WorkFlags::OVERLAY, AttemptOutcome::OverlayCommitted, FrameTrace::default());
    assert!(overlay.committed && !overlay.grid_painted);
    assert_eq!(overlay.effective, Some(RenderStrategy::OverlayOnly));
    assert_eq!(ledger.commit_seq, 2);
}

fn frame(sheet: u32) -> Chrome {
    Chrome {
        sheet,
        pane_set: PaneSet {
            rows: AxisSlots {
                frozen: Vec::new(),
                scroll: (0..3).map(|i| RowSlot::new(1 + i, 29 + i * 20, 20)).collect(),
                frozen_offset: 29,
                last_id: 1000,
            },
            cols: AxisSlots {
                frozen: Vec::new(),
                scroll: (0..2).map(|i| ColSlot::new(1 + i, 31 + i * 50, 50)).collect(),
                frozen_offset: 31,
                last_id: 100,
            },
            row_header_labels: Vec::new(),
            col_header_labels: Vec::new(),
        },
        row_header_thickness: 30,
        col_header_thickness: 28,
        cell_origin: Point { x: 31, y: 29 },
        logical_width: 400,
        logical_height: 300,
        model_generation: 1,
        show_row_headers: true,
        show_col_headers: true,
        kind: FrameKindTag::Fresh,
    }
}

#[test]
fn replace_installs_the_frame_and_drains_the_displaced_one() {
    let mut ledger = AttemptLedger::new();
    assert!(ledger.last_frame.is_none());
    ledger.finish(
        Some(RenderStrategy::FullRebuild),
        WorkFlags::GEOMETRY,
        AttemptOutcome::GridCommitted { frame: FrameUpdate::Replace(frame(1)), effective: RenderStrategy::FullRebuild },
        FrameTrace::default(),
    );
    assert_eq!(ledger.last_frame.as_ref().map(|f| f.sheet), Some(1));
    assert!(ledger.spare_slots.scroll_rows.is_empty());

    ledger.finish(
        Some(RenderStrategy::FullRebuild),
        WorkFlags::GEOMETRY,
        AttemptOutcome::GridCommitted { frame: FrameUpdate::Replace(frame(2)), effective: RenderStrategy::FullRebuild },
        FrameTrace::default(),
    );
    assert_eq!(ledger.last_frame.as_ref().map(|f| f.sheet), Some(2));
    assert!(ledger.spare_slots.scroll_rows.is_empty());
    assert!(ledger.spare_slots.scroll_cols.is_empty());

    // A preserve leaves the committed frame as it stands.
    ledger.finish(None, WorkFlags::OVERLAY, AttemptOutcome::OverlayCommitted, FrameTrace::default());
    assert_eq!(ledger.last_frame.as_ref().map(|f| f.sheet), Some(2));
    let work = PendingWork::default();
    ledger.finish(
        None,
        WorkFlags::EMPTY,
        AttemptOutcome::Held { retry: work, frame: FrameUpdate::Preserve, reason: HoldReason::BridgeFailure },
        FrameTrace::default(),
    );
    assert_eq!(ledger.last_frame.as_ref().map(|f| f.sheet), Some(2));
}

#[test]
fn capture_failure_requeues_the_whole_work_and_keeps_the_frame() {
    let mut ledger = AttemptLedger::new();
    ledger.finish(
        Some(RenderStrategy::FullRebuild),
        WorkFlags::GEOMETRY,
        AttemptOutcome::GridCommitted { frame: FrameUpdate::Replace(frame(4)), effective: RenderStrategy::FullRebuild },
        FrameTrace::default(),
    );
    ledger.pending.mark_view();
    ledger.pending.mark_rows(4, RowSpan::new(2, 3));
    let work = ledger.begin(true).expect("work was queued");
    let before = work.clone();
    let flags = work.flags();
    let settled = ledger.hold_on_capture_failure(work, FrameInputFailure::SelectedSheet, FrameTrace::default());
    assert_eq!(settled.result, PaintResult::RetryRequired);
    assert!(!settled.committed);
    assert_eq!(ledger.pending, before);
    assert_eq!(ledger.commit_seq, 1);
    assert_eq!(ledger.last_strategy, None);
    assert_eq!(ledger.last_work_flags, flags);
    assert_eq!(ledger.last_trace.outcome, FrameOutcome::HeldOnInputFailure(FrameInputFailure::SelectedSheet));
    assert_eq!(ledger.last_frame.as_ref().map(|f| f.sheet), Some(4));
}
