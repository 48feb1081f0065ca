//! The frame planner: the intent-plus-delta decision that turns one paint
//! attempt into a closed `FramePlan`.

use vstd::prelude::*;

use crate::frame::delta::{BlitPlan, FrameDelta, RebuildReason};
use crate::frame::work::{ContentModel, ContentWork, PendingWork, RowSpan, WorkModel, copy_spans};

verus! {

/// Data-free strategy tag, derived from [`GridWork::strategy`].
#[derive(Debug, Clone, Copy, PartialEq, Eq, Structural)]
pub enum RenderStrategy {
    OverlayOnly,
    ScrollBlit,
    ChangedCells,
    FullRebuild,
    DamagedRows,
}

/// What the planner decided the grid needs this attempt. Each variant
/// carries the payload its render method needs.
#[derive(Debug)]
pub enum GridWork {
    /// No grid touch at all: the committed frame is reused as-is.
    Untouched,
    /// Full rebuild: fresh geometry, whole grid repainted.
    Fresh,
    /// Slots reused; the visible grid refetches and repaints.
    AllContent,
    /// Slots reused; only the named row bands on `sheet` repaint.
    Rows { sheet: u32, spans: Vec<RowSpan> },
    /// Blit reuse: the kept band ships via a pixel copy and only the
    /// plan's repaint strip refetches.
    Blit(BlitPlan),
}

/// The strategy a grid-work value selects: one per variant.
pub open spec fn grid_strategy(g: GridWork) -> RenderStrategy {
    match g {
        GridWork::Untouched => RenderStrategy::OverlayOnly,
        GridWork::Fresh => RenderStrategy::FullRebuild,
        GridWork::AllContent => RenderStrategy::ChangedCells,
        GridWork::Rows { .. } => RenderStrategy::DamagedRows,
        GridWork::Blit(_) => RenderStrategy::ScrollBlit,
    }
}

impl GridWork {
    /// The `RenderStrategy` this work selects: the single authority for the
    /// strategy tag.
    pub fn strategy(&self) -> (s: RenderStrategy)
        ensures
            s == grid_strategy(*self),
    {
        match self {
            GridWork::Untouched => RenderStrategy::OverlayOnly,
            GridWork::Fresh => RenderStrategy::FullRebuild,
            GridWork::AllContent => RenderStrategy::ChangedCells,
            GridWork::Rows { .. } => RenderStrategy::DamagedRows,
            GridWork::Blit(_) => RenderStrategy::ScrollBlit,
        }
    }
}

/// Whether this attempt must repaint the overlay layer.
#[derive(Clone, Copy, Debug, PartialEq, Eq, Structural)]
pub enum OverlayWork {
    /// Leave the overlay surface exactly as the previous frame left it.
    Preserve,
    Paint,
}

/// The closed output of [`plan_frame`]: the grid work, the overlay verdict,
/// the taken work the plan was built from (so a held attempt can merge it
/// back), and the hard break that forced a rebuild, if any.
#[derive(Debug)]
pub struct FramePlan {
    pub grid: GridWork,
    pub overlay: OverlayWork,
    pub consumes: PendingWork,
    pub rebuild_reason: Option<RebuildReason>,
}

/// The planner table, cheapest arm first:
///
/// | attempted work and live delta | strategy |
/// | --- | --- |
/// | no content or geometry, `Scroll` | `ScrollBlit` |
/// | overlay/view only, `Stable` | `OverlayOnly` |
/// | row content on the current sheet, no geometry, `Stable` | `DamagedRows` |
/// | other content, no geometry, `Stable` | `ChangedCells` |
/// | anything else (geometry, content plus a real scroll, `Rebuild`) | `FullRebuild` |
pub open spec fn planned_strategy(w: WorkModel, delta: FrameDelta, sheet: u32) -> RenderStrategy {
    let content = !(w.content is Clean);
    let stable = delta is Stable;
    if !content && !w.geometry && delta is Scroll {
        RenderStrategy::ScrollBlit
    } else if (w.overlay || w.view) && !content && !w.geometry && stable {
        RenderStrategy::OverlayOnly
    } else if !w.geometry && stable && (w.content matches ContentModel::Rows { sheet: s, .. } && s
        == sheet) {
        RenderStrategy::DamagedRows
    } else if content && !w.geometry && stable {
        RenderStrategy::ChangedCells
    } else {
        RenderStrategy::FullRebuild
    }
}

/// Whether the overlay surface is painted: for the two content-only
/// strategies only when overlay work is queued or the selection shows;
/// for every other strategy always.
pub open spec fn planned_overlay(w: WorkModel, strategy: RenderStrategy, show_selection: bool) -> OverlayWork {
    match strategy {
        RenderStrategy::DamagedRows | RenderStrategy::ChangedCells => if w.overlay || show_selection {
            OverlayWork::Paint
        } else {
            OverlayWork::Preserve
        },
        _ => OverlayWork::Paint,
    }
}

/// Build the plan for one paint attempt from its taken `PendingWork` and
/// the `FrameDelta` classification. Pure: the only other inputs are the
/// current sheet (row work recorded against another sheet cannot clip to
/// bands) and the captured selection visibility.
///
/// Rules that the table encodes:
/// - a view mark does not exclude `OverlayOnly`: `Scroll` is attempted
///   first, and a stable in-viewport selection move falls back to it;
/// - an overlay-only wakeup (no view mark) may still select `ScrollBlit`;
/// - content plus a real scroll or rebuild plans `FullRebuild`, never a
///   blit over changed values;
/// - row work carries its original sheet into `GridWork::Rows`;
/// - geometry work forces `FullRebuild` even when the delta is `Stable`.
pub fn plan_frame(work: PendingWork, delta: FrameDelta, sheet: u32, show_selection: bool) -> (plan:
    FramePlan)
    ensures
        plan.consumes@ == work@,
        plan.rebuild_reason == match delta {
            FrameDelta::Rebuild(reason) => Some(reason),
            _ => None,
        },
        grid_strategy(plan.grid) == planned_strategy(work@, delta, sheet),
        plan.overlay == planned_overlay(work@, planned_strategy(work@, delta, sheet), show_selection),
        plan.grid matches GridWork::Blit(p) ==> delta == FrameDelta::Scroll(p),
        plan.grid matches GridWork::Rows { sheet: s, spans } ==> work@.content == (ContentModel::Rows {
            sheet: s,
            spans: spans@,
        }),
{
    let rebuild_reason = match delta {
        FrameDelta::Rebuild(reason) => Some(reason),
        _ => None,
    };
    let reusable = match delta {
        FrameDelta::Stable => true,
        _ => false,
    };
    let content_overlay = if work.has_overlay() || show_selection {
        OverlayWork::Paint
    } else {
        OverlayWork::Preserve
    };

    if !work.has_content() && !work.has_geometry() {
        if let FrameDelta::Scroll(plan) = delta {
            return FramePlan {
                grid: GridWork::Blit(plan),
                overlay: OverlayWork::Paint,
                consumes: work,
                rebuild_reason,
            };
        }
    }

    if (work.has_overlay() || work.has_view()) && !work.has_content() && !work.has_geometry()
        && reusable {
        return FramePlan { grid: GridWork::Untouched, overlay: OverlayWork::Paint, consumes: work, rebuild_reason };
    }

    if !work.has_geometry() && reusable {
        let rows = match work.content() {
            ContentWork::Rows { sheet: rows_sheet, spans } => {
                if *rows_sheet == sheet {
                    Some((*rows_sheet, copy_spans(spans)))
                } else {
                    None
                }
            },
            _ => None,
        };
        if let Some((rows_sheet, spans)) = rows {
            return FramePlan {
                grid: GridWork::Rows { sheet: rows_sheet, spans },
                overlay: content_overlay,
                consumes: work,
                rebuild_reason,
            };
        }
    }

    if work.has_content() && !work.has_geometry() && reusable {
        return FramePlan {
            grid: GridWork::AllContent,
            overlay: content_overlay,
            consumes: work,
            rebuild_reason,
        };
    }

    FramePlan { grid: GridWork::Fresh, overlay: OverlayWork::Paint, consumes: work, rebuild_reason }
}

} // verus!
