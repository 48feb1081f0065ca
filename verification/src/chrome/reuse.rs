//! In-place construction of a scroll blit's next frame: the kept band and
//! the unchanged cross axis carry forward, only the strip is walked, and
//! the previous frame can be restored exactly until the caller commits.

use vstd::prelude::*;

use crate::chrome::{Chrome, FrameKindTag};
use crate::chrome::blit::rebuild_outcome;
use crate::chrome::construct::{FramePath, FreshBuild, build_outcome, row_header_thickness_for, thickness_for};
use crate::chrome::pane_set::{PaneSet, ScrollAxisSlots, labels_of};
use crate::chrome::recycled_slots::RecycledSlots;
use crate::frame::delta::BlitPlan;
use crate::frame::inputs::FrameInputs;
use crate::geometry::prim::Axis;
use crate::geometry::slot::{AxisSlots, ColSlot, RowSlot, scroll_first, spec_scroll_first};

verus! {

/// `a` and `b` hold the same geometry, labels and per-attempt scalars.
pub open spec fn same_frame(a: Chrome, b: Chrome) -> bool {
    &&& a.sheet == b.sheet
    &&& a.row_header_thickness == b.row_header_thickness
    &&& a.col_header_thickness == b.col_header_thickness
    &&& a.cell_origin == b.cell_origin
    &&& a.logical_width == b.logical_width
    &&& a.logical_height == b.logical_height
    &&& a.model_generation == b.model_generation
    &&& a.show_row_headers == b.show_row_headers
    &&& a.show_col_headers == b.show_col_headers
    &&& a.kind == b.kind
    &&& a.pane_set.rows.frozen@ == b.pane_set.rows.frozen@
    &&& a.pane_set.rows.scroll@ == b.pane_set.rows.scroll@
    &&& a.pane_set.rows.frozen_offset == b.pane_set.rows.frozen_offset
    &&& a.pane_set.rows.last_id == b.pane_set.rows.last_id
    &&& a.pane_set.cols.frozen@ == b.pane_set.cols.frozen@
    &&& a.pane_set.cols.scroll@ == b.pane_set.cols.scroll@
    &&& a.pane_set.cols.frozen_offset == b.pane_set.cols.frozen_offset
    &&& a.pane_set.cols.last_id == b.pane_set.cols.last_id
    &&& a.pane_set.row_header_labels@ == b.pane_set.row_header_labels@
    &&& a.pane_set.col_header_labels@ == b.pane_set.col_header_labels@
}

/// The fields a blit candidate replaces, saved so the previous frame can
/// be restored without re-deriving anything: the scrolled axis's original
/// slots, the original labels, and the per-attempt scalars.
struct BlitRollback {
    scroll: ScrollAxisSlots,
    row_header_labels: Vec<String>,
    col_header_labels: Vec<String>,
    logical_width: i32,
    logical_height: i32,
    model_generation: u64,
    show_row_headers: bool,
    show_col_headers: bool,
    kind: FrameKindTag,
}

/// A scroll blit's next-frame candidate, reversible until the caller
/// commits or rolls back.
pub struct PreparedBlitFrame {
    candidate: Chrome,
    rollback: BlitRollback,
    prev: Ghost<Chrome>,
}

/// Outcome of preparing a blit: a reversible candidate, or the previous
/// frame handed back whole for a fresh rebuild.
pub enum PreparedBlitOutcome {
    Ready(PreparedBlitFrame),
    FreshFallback(Chrome),
}

/// Outcome of building a blit's next frame: reused in place, or rebuilt
/// fresh after the in-place reuse rejected.
pub enum BlitOutcome {
    Blitted(Chrome),
    FreshFallback(FreshBuild),
}

impl PreparedBlitFrame {
    /// The frame rolling back restores.
    pub closed spec fn restored(&self) -> Chrome {
        let c = self.candidate;
        let rb = self.rollback;
        Chrome {
            sheet: c.sheet,
            pane_set: PaneSet {
                rows: AxisSlots {
                    frozen: c.pane_set.rows.frozen,
                    scroll: match rb.scroll {
                        ScrollAxisSlots::Row(v) => v,
                        ScrollAxisSlots::Column(_) => c.pane_set.rows.scroll,
                    },
                    frozen_offset: c.pane_set.rows.frozen_offset,
                    last_id: c.pane_set.rows.last_id,
                },
                cols: AxisSlots {
                    frozen: c.pane_set.cols.frozen,
                    scroll: match rb.scroll {
                        ScrollAxisSlots::Row(_) => c.pane_set.cols.scroll,
                        ScrollAxisSlots::Column(v) => v,
                    },
                    frozen_offset: c.pane_set.cols.frozen_offset,
                    last_id: c.pane_set.cols.last_id,
                },
                row_header_labels: rb.row_header_labels,
                col_header_labels: rb.col_header_labels,
            },
            row_header_thickness: c.row_header_thickness,
            col_header_thickness: c.col_header_thickness,
            cell_origin: c.cell_origin,
            logical_width: rb.logical_width,
            logical_height: rb.logical_height,
            model_generation: rb.model_generation,
            show_row_headers: rb.show_row_headers,
            show_col_headers: rb.show_col_headers,
            kind: rb.kind,
        }
    }

    /// Rolling back restores exactly the frame the candidate was built
    /// from.
    #[verifier::type_invariant]
    closed spec fn restorable(&self) -> bool {
        same_frame(self.restored(), self.prev@)
    }

    /// The frame the candidate was built from.
    pub closed spec fn origin(&self) -> Chrome {
        self.prev@
    }

    /// The candidate frame.
    pub closed spec fn spec_frame(&self) -> Chrome {
        self.candidate
    }

    /// Borrow the candidate, e.g. to paint it before deciding whether to
    /// commit or roll back.
    pub fn frame(&self) -> (c: &Chrome)
        ensures
            *c == self.spec_frame(),
    {
        &self.candidate
    }

    /// Keep the candidate.
    pub fn commit(self) -> (c: Chrome)
        ensures
            c == self.spec_frame(),
    {
        self.candidate
    }

    /// Restore the previous frame: the frozen bands and the untouched
    /// cross-axis band move back out of the candidate, and the saved
    /// originals replace everything the candidate refreshed. Nothing is
    /// cloned.
    pub fn rollback(self) -> (c: Chrome)
        ensures
            same_frame(c, self.origin()),
    {
        proof {
            use_type_invariant(&self);
        }
        let PreparedBlitFrame { candidate, rollback, prev } = self;
        let BlitRollback {
            scroll,
            row_header_labels,
            col_header_labels,
            logical_width,
            logical_height,
            model_generation,
            show_row_headers,
            show_col_headers,
            kind,
        } = rollback;
        let Chrome { sheet, pane_set, row_header_thickness, col_header_thickness, cell_origin, .. } = candidate;
        Chrome {
            sheet,
            pane_set: pane_set.swap_scroll_axis(scroll, row_header_labels, col_header_labels),
            row_header_thickness,
            col_header_thickness,
            cell_origin,
            logical_width,
            logical_height,
            model_generation,
            show_row_headers,
            show_col_headers,
            kind,
        }
    }
}

/// The first scroll row and column the attempt shows, given the previous
/// frame's frozen counts.
pub open spec fn blit_targets(prev: Chrome, inputs: crate::frame::inputs::InputsModel) -> (int, int) {
    (
        spec_scroll_first(prev.pane_set.rows.frozen@.len() as int, inputs.view.top_row as int),
        spec_scroll_first(prev.pane_set.cols.frozen@.len() as int, inputs.view.left_column as int),
    )
}

/// What [`try_blit_reuse`] answers for `prev` and snapshot `s`.
pub open spec fn reuse_outcome<F: Fn(i32) -> Option<i32>, G: Fn(i32) -> Option<i32>, L: Fn(i32) -> String, M: Fn(
    i32,
) -> String>(
    prev: Chrome,
    s: crate::frame::inputs::InputsModel,
    plan: BlitPlan,
    pixel_aligned: bool,
    measure_row: F,
    measure_col: G,
    row_label: L,
    col_label: M,
    r: PreparedBlitOutcome,
) -> bool {
            let (new_top, new_left) = blit_targets(prev, s);
            let fr = prev.pane_set.rows.frozen@.len() as int;
            match r {
                PreparedBlitOutcome::FreshFallback(c) => {
                    &&& c == prev
                    &&& (!s.show_row_headers && !pixel_aligned) || match plan.axis {
                        Axis::Row => exists|v: Option<Vec<RowSlot>>|
                            #[trigger] rebuild_outcome(
                                measure_row,
                                prev.pane_set.rows.scroll@,
                                prev.pane_set.rows.frozen_offset as int,
                                s.logical_height as int,
                                new_top,
                                prev.pane_set.rows.last_id as int,
                                v,
                            ) && (v is None || thickness_for(v->0@, fr, new_top, s.show_row_headers)
                                != prev.row_header_thickness),
                        Axis::Column => (exists|v: Option<Vec<ColSlot>>|
                            #[trigger] rebuild_outcome(
                                measure_col,
                                prev.pane_set.cols.scroll@,
                                prev.pane_set.cols.frozen_offset as int,
                                s.logical_width as int,
                                new_left,
                                prev.pane_set.cols.last_id as int,
                                v,
                            ) && v is None) || thickness_for(prev.pane_set.rows.scroll@, fr, new_top, s.show_row_headers)
                            != prev.row_header_thickness,
                    }
                },
                PreparedBlitOutcome::Ready(p) => {
                    let c = p.spec_frame();
                    &&& p.origin() == prev
                    &&& s.show_row_headers || pixel_aligned
                    &&& c.sheet == prev.sheet
                    &&& c.row_header_thickness == prev.row_header_thickness
                    &&& c.col_header_thickness == prev.col_header_thickness
                    &&& c.cell_origin == prev.cell_origin
                    &&& c.logical_width == s.logical_width
                    &&& c.logical_height == s.logical_height
                    &&& c.model_generation == s.model_generation
                    &&& c.show_row_headers == s.show_row_headers
                    &&& c.show_col_headers == s.show_col_headers
                    &&& c.kind == FrameKindTag::Blitted
                    &&& c.pane_set.rows.frozen@ == prev.pane_set.rows.frozen@
                    &&& c.pane_set.cols.frozen@ == prev.pane_set.cols.frozen@
                    &&& c.pane_set.rows.frozen_offset == prev.pane_set.rows.frozen_offset
                    &&& c.pane_set.cols.frozen_offset == prev.pane_set.cols.frozen_offset
                    &&& c.pane_set.rows.last_id == prev.pane_set.rows.last_id
                    &&& c.pane_set.cols.last_id == prev.pane_set.cols.last_id
                    &&& labels_of(row_label, c.pane_set.rows.frozen@ + c.pane_set.rows.scroll@, c.pane_set.row_header_labels@)
                    &&& labels_of(col_label, c.pane_set.cols.frozen@ + c.pane_set.cols.scroll@, c.pane_set.col_header_labels@)
                    &&& match plan.axis {
                        Axis::Row => {
                            &&& c.pane_set.cols.scroll@ == prev.pane_set.cols.scroll@
                            &&& exists|v: Option<Vec<RowSlot>>|
                                #[trigger] rebuild_outcome(
                                    measure_row,
                                    prev.pane_set.rows.scroll@,
                                    prev.pane_set.rows.frozen_offset as int,
                                    s.logical_height as int,
                                    new_top,
                                    prev.pane_set.rows.last_id as int,
                                    v,
                                ) && v is Some && v->0@ == c.pane_set.rows.scroll@
                            &&& thickness_for(c.pane_set.rows.scroll@, fr, new_top, s.show_row_headers)
                                == prev.row_header_thickness
                        },
                        Axis::Column => {
                            &&& c.pane_set.rows.scroll@ == prev.pane_set.rows.scroll@
                            &&& exists|v: Option<Vec<ColSlot>>|
                                #[trigger] rebuild_outcome(
                                    measure_col,
                                    prev.pane_set.cols.scroll@,
                                    prev.pane_set.cols.frozen_offset as int,
                                    s.logical_width as int,
                                    new_left,
                                    prev.pane_set.cols.last_id as int,
                                    v,
                                ) && v is Some && v->0@ == c.pane_set.cols.scroll@
                            &&& thickness_for(prev.pane_set.rows.scroll@, fr, new_top, s.show_row_headers)
                                == prev.row_header_thickness
                        },
                    }
                },
            }
        
}

/// Build the next frame of a scroll blit by reusing as much of `prev` as
/// the plan guarantees is unchanged. The scrolled axis's band is rebuilt
/// (the kept band carries forward, only the strip is measured); the frozen
/// bands and the cross axis's band move over unchanged; labels are
/// re-resolved; the per-attempt scalars come from `inputs`.
///
/// Rejects, handing `prev` back whole, when row headers are hidden and the
/// copy is not aligned to whole device pixels (`pixel_aligned`, which also
/// covers fractional chrome blending), when the rebuild aborts, or when the
/// row header's width changes (a label crossing a digit boundary moves the
/// cell area's left edge, so every column would shift).
pub fn try_blit_reuse<F: Fn(i32) -> Option<i32>, G: Fn(i32) -> Option<i32>, L: Fn(i32) -> String, M: Fn(i32) -> String>(
    prev: Chrome,
    inputs: &FrameInputs,
    plan: &BlitPlan,
    pixel_aligned: bool,
    measure_row: F,
    measure_col: G,
    row_label: L,
    col_label: M,
) -> (r: PreparedBlitOutcome)
    requires
        forall|id: i32| measure_row.requires((id,)),
        forall|id: i32| measure_col.requires((id,)),
        forall|id: i32| row_label.requires((id,)),
        forall|id: i32| col_label.requires((id,)),
        prev.wf(),
        prev.pane_set.rows.frozen@.len() < i32::MAX,
        prev.pane_set.cols.frozen@.len() < i32::MAX,
        prev.pane_set.rows.scroll_contiguous(),
        prev.pane_set.cols.scroll_contiguous(),
    ensures
        reuse_outcome(prev, inputs.snapshot(), *plan, pixel_aligned, measure_row, measure_col, row_label, col_label, r),
{
    proof {
        use_type_invariant(inputs);
        inputs.lemma_wf();
    }
    let show_row = inputs.show_row_headers();
    if !show_row && !pixel_aligned {
        return PreparedBlitOutcome::FreshFallback(prev);
    }
    let view = inputs.view();
    let (canvas_w, canvas_h) = inputs.logical_extent();
    let frozen_rows_count = prev.pane_set.rows.frozen_count();
    let frozen_cols_count = prev.pane_set.cols.frozen_count();
    let new_top = scroll_first(frozen_rows_count, view.top_row);
    let new_left = scroll_first(frozen_cols_count, view.left_column);
    let ghost g_prev = prev;
    let (new_rows, new_cols, row_header_thickness) = match plan.axis {
        Axis::Row => {
            let rebuilt = prev.pane_set.rebuild_rows_for_row_scroll(new_top, canvas_h, measure_row);
            proof {
                let s = inputs.snapshot();
                assert(blit_targets(prev, s).0 == new_top);
                assert(rebuild_outcome(
                    measure_row,
                    prev.pane_set.rows.scroll@,
                    prev.pane_set.rows.frozen_offset as int,
                    s.logical_height as int,
                    blit_targets(prev, s).0,
                    prev.pane_set.rows.last_id as int,
                    rebuilt,
                ));
            }
            let rows = match rebuilt {
                Some(rows) => rows,
                None => {
                    return PreparedBlitOutcome::FreshFallback(prev);
                },
            };
            let thickness = row_header_thickness_for(rows.as_slice(), frozen_rows_count, new_top, show_row);
            if thickness != prev.row_header_thickness {
                return PreparedBlitOutcome::FreshFallback(prev);
            }
            (Some(rows), None, thickness)
        },
        Axis::Column => {
            let rebuilt = prev.pane_set.rebuild_cols_for_col_scroll(new_left, canvas_w, measure_col);
            proof {
                let s = inputs.snapshot();
                assert(blit_targets(prev, s).1 == new_left);
                assert(rebuild_outcome(
                    measure_col,
                    prev.pane_set.cols.scroll@,
                    prev.pane_set.cols.frozen_offset as int,
                    s.logical_width as int,
                    blit_targets(prev, s).1,
                    prev.pane_set.cols.last_id as int,
                    rebuilt,
                ));
            }
            let cols = match rebuilt {
                Some(cols) => cols,
                None => {
                    return PreparedBlitOutcome::FreshFallback(prev);
                },
            };
            let thickness = row_header_thickness_for(
                prev.pane_set.rows.scroll.as_slice(),
                frozen_rows_count,
                new_top,
                show_row,
            );
            if thickness != prev.row_header_thickness {
                return PreparedBlitOutcome::FreshFallback(prev);
            }
            (None, Some(cols), thickness)
        },
    };
    let Chrome {
        sheet,
        pane_set,
        row_header_thickness: _,
        col_header_thickness,
        cell_origin,
        logical_width,
        logical_height,
        model_generation,
        show_row_headers,
        show_col_headers,
        kind,
    } = prev;
    let PaneSet { rows, cols, row_header_labels, col_header_labels } = pane_set;
    let AxisSlots { frozen: rows_frozen, scroll: rows_scroll, frozen_offset: rows_offset, last_id: rows_last } = rows;
    let AxisSlots { frozen: cols_frozen, scroll: cols_scroll, frozen_offset: cols_offset, last_id: cols_last } = cols;
    let (scroll_rows, scroll_cols, old_scroll) = match (new_rows, new_cols) {
        (Some(r), _) => (r, cols_scroll, ScrollAxisSlots::Row(rows_scroll)),
        (None, Some(c)) => (rows_scroll, c, ScrollAxisSlots::Column(cols_scroll)),
        (None, None) => (rows_scroll, cols_scroll, ScrollAxisSlots::Row(Vec::new())),
    };
    let row_labels = PaneSet::resolve_row_labels(rows_frozen.as_slice(), scroll_rows.as_slice(), &row_label);
    let col_labels = PaneSet::resolve_col_labels(cols_frozen.as_slice(), scroll_cols.as_slice(), &col_label);
    let rollback = BlitRollback {
        scroll: old_scroll,
        row_header_labels,
        col_header_labels,
        logical_width,
        logical_height,
        model_generation,
        show_row_headers,
        show_col_headers,
        kind,
    };
    let candidate = Chrome {
        sheet,
        pane_set: PaneSet {
            rows: AxisSlots { frozen: rows_frozen, scroll: scroll_rows, frozen_offset: rows_offset, last_id: rows_last },
            cols: AxisSlots { frozen: cols_frozen, scroll: scroll_cols, frozen_offset: cols_offset, last_id: cols_last },
            row_header_labels: row_labels,
            col_header_labels: col_labels,
        },
        row_header_thickness,
        col_header_thickness,
        cell_origin,
        logical_width: canvas_w,
        logical_height: canvas_h,
        model_generation: inputs.model_generation(),
        show_row_headers: show_row,
        show_col_headers: inputs.show_col_headers(),
        kind: FrameKindTag::Blitted,
    };
    PreparedBlitOutcome::Ready(PreparedBlitFrame { candidate, rollback, prev: Ghost(g_prev) })
}

impl Chrome {
    /// Prepare a blit's next frame without committing; see
    /// [`try_blit_reuse`].
    pub fn prepare_blit<F: Fn(i32) -> Option<i32>, G: Fn(i32) -> Option<i32>, L: Fn(i32) -> String, M: Fn(i32) -> String>(
        prev: Chrome,
        inputs: &FrameInputs,
        plan: &BlitPlan,
        pixel_aligned: bool,
        measure_row: F,
        measure_col: G,
        row_label: L,
        col_label: M,
    ) -> (r: PreparedBlitOutcome)
        requires
            forall|id: i32| measure_row.requires((id,)),
            forall|id: i32| measure_col.requires((id,)),
            forall|id: i32| row_label.requires((id,)),
            forall|id: i32| col_label.requires((id,)),
            prev.wf(),
            prev.pane_set.rows.frozen@.len() < i32::MAX,
            prev.pane_set.cols.frozen@.len() < i32::MAX,
            prev.pane_set.rows.scroll_contiguous(),
            prev.pane_set.cols.scroll_contiguous(),
        ensures
            reuse_outcome(prev, inputs.snapshot(), *plan, pixel_aligned, measure_row, measure_col, row_label, col_label, r),
    {
        try_blit_reuse(prev, inputs, plan, pixel_aligned, measure_row, measure_col, row_label, col_label)
    }

    /// Build a blit's next frame and commit it at once: reused in place
    /// when the reuse qualifies, else rebuilt fresh (recycling the previous
    /// frame's allocations). Without a previous frame the build is fresh.
    pub fn next_blit<
        F: Fn(i32) -> Option<i32> + Copy,
        G: Fn(i32) -> Option<i32> + Copy,
        L: Fn(i32) -> String + Copy,
        M: Fn(i32) -> String + Copy,
    >(
        prev: Option<Chrome>,
        inputs: &FrameInputs,
        plan: &BlitPlan,
        pixel_aligned: bool,
        last_row: i32,
        last_column: i32,
        measure_row: F,
        measure_col: G,
        row_label: L,
        col_label: M,
    ) -> (r: BlitOutcome)
        requires
            forall|id: i32| measure_row.requires((id,)),
            forall|id: i32| measure_col.requires((id,)),
            forall|id: i32| row_label.requires((id,)),
            forall|id: i32| col_label.requires((id,)),
            prev matches Some(p) ==> {
                &&& p.wf()
                &&& p.pane_set.rows.frozen@.len() < i32::MAX
                &&& p.pane_set.cols.frozen@.len() < i32::MAX
                &&& p.pane_set.rows.scroll_contiguous()
                &&& p.pane_set.cols.scroll_contiguous()
            },
        ensures
            match r {
                BlitOutcome::Blitted(c) => prev is Some && exists|p: PreparedBlitFrame|
                    #[trigger] reuse_outcome(
                        prev->0,
                        inputs.snapshot(),
                        *plan,
                        pixel_aligned,
                        measure_row,
                        measure_col,
                        row_label,
                        col_label,
                        PreparedBlitOutcome::Ready(p),
                    ) && c == p.spec_frame(),
                BlitOutcome::FreshFallback(b) => {
                    &&& prev is Some ==> reuse_outcome(
                        prev->0,
                        inputs.snapshot(),
                        *plan,
                        pixel_aligned,
                        measure_row,
                        measure_col,
                        row_label,
                        col_label,
                        PreparedBlitOutcome::FreshFallback(prev->0),
                    )
                    &&& exists|pool: RecycledSlots|
                        {
                            &&& pool.frozen_rows@.len() == 0
                            &&& pool.scroll_rows@.len() == 0
                            &&& pool.frozen_cols@.len() == 0
                            &&& pool.scroll_cols@.len() == 0
                            &&& #[trigger] build_outcome(
                                b,
                                inputs.snapshot(),
                                pool,
                                last_row,
                                last_column,
                                measure_row,
                                measure_col,
                                row_label,
                                col_label,
                            )
                        }
                },
            },
    {
        let prev = match prev {
            Some(p) => p,
            None => {
                return BlitOutcome::FreshFallback(
                    Chrome::next(None, inputs, FramePath::Fresh, last_row, last_column, measure_row, measure_col, row_label, col_label),
                );
            },
        };
        let ghost g_prev = prev;
        match Chrome::prepare_blit(prev, inputs, plan, pixel_aligned, measure_row, measure_col, row_label, col_label) {
            PreparedBlitOutcome::Ready(prepared) => {
                let ghost gp = prepared;
                let c = prepared.commit();
                proof {
                    assert(reuse_outcome(g_prev, inputs.snapshot(), *plan, pixel_aligned, measure_row, measure_col, row_label, col_label, PreparedBlitOutcome::Ready(gp)));
                }
                BlitOutcome::Blitted(c)
            },
            PreparedBlitOutcome::FreshFallback(prev) => BlitOutcome::FreshFallback(
                Chrome::next(Some(prev), inputs, FramePath::Fresh, last_row, last_column, measure_row, measure_col, row_label, col_label),
            ),
        }
    }
}

} // verus!
