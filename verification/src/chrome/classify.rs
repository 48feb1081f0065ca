//! Classification of a paint attempt against the committed frame: stable,
//! a single-axis scroll blit, or a rebuild with its reason; and the
//! active-cell snapshot that guards a blit against an edit the consumer
//! never reported.

use std::collections::hash_map::DefaultHasher;
use std::hash::Hasher;

use vstd::prelude::*;
use vstd::std_specs::hash::DefaultHasherAdditionalSpecFns;
use vstd::utf8::encode_utf8;

use crate::chrome::Chrome;
use crate::chrome::blit::{ShiftDir, probe_outcome, plan_of_probe, try_blit_cols, try_blit_rows};
use crate::frame::delta::{AxisRange, BlitPlan, FrameDelta, RebuildReason};
use crate::frame::inputs::{FrameInputs, InputsModel};
use crate::geometry::prim::Axis;
use crate::geometry::slot::{scroll_first, spec_scroll_first, spec_top_id};
use crate::model::Fetched;

verus! {

/// In-process digest of a formatted cell value. The digest is only stable
/// within one build, so it must never be persisted or compared across
/// builds.
#[derive(Clone, Copy, Debug, Default, PartialEq, Eq, Structural)]
pub struct CellValueHash(u64);

/// The digest of a string with characters `s`: its UTF-8 bytes written
/// once into a fresh `DefaultHasher`, then finished.
pub open spec fn value_digest(s: Seq<char>) -> u64 {
    DefaultHasher::spec_finish(seq![encode_utf8(s)])
}

/// Digest of `value`: a fresh `DefaultHasher` (fixed keys, so the same
/// string digests the same within one build), its UTF-8 bytes written once,
/// then finished. The algorithm may change between releases, so digests
/// are never persisted or compared across builds.
fn digest(value: &String) -> (r: u64)
    ensures
        r == value_digest(value@),
{
    let mut hasher = DefaultHasher::new();
    hasher.write(value.as_str().as_bytes());
    hasher.finish()
}

/// The digest of one formatted-value read: none for a failed read, the
/// digest of `""` for an absent cell.
pub closed spec fn spec_hash_cell_value(fetched: Fetched<String>) -> Option<CellValueHash> {
    match fetched {
        Fetched::Value(v) => Some(CellValueHash(value_digest(v@))),
        Fetched::Absent => Some(CellValueHash(value_digest(Seq::<char>::empty()))),
        Fetched::BridgeFailed => None,
    }
}

/// Digest of one formatted-value read: `None` for a failed read (value
/// unknown); an absent cell is a known-empty value and hashes as `""`, so
/// it stays comparable across frames.
pub fn hash_cell_value(fetched: Fetched<String>) -> (r: Option<CellValueHash>)
    ensures
        r == spec_hash_cell_value(fetched),
        r is None <==> fetched is BridgeFailed,
{
    if fetched.is_bridge_failed() {
        return None;
    }
    let value = match fetched.value() {
        Some(v) => v,
        None => String::new(),
    };
    proof {
        if fetched is Absent {
            assert(value@ =~= Seq::<char>::empty());
        }
    }
    Some(CellValueHash(digest(&value)))
}

/// Snapshot of the active cell at paint time. Classification re-hashes the
/// live value at the stored coordinates; a mismatch means the cell was
/// edited since the frame was painted, and a blit's kept band would carry
/// stale pixels.
#[derive(Clone, Debug, Default)]
pub struct ActiveCellSnapshot {
    pub row: i32,
    pub col: i32,
    /// `None` when the read failed: an unknown value, distinct from a known
    /// empty cell.
    pub value_hash: Option<CellValueHash>,
}

impl ActiveCellSnapshot {
    /// Snapshot `(row, col)` with the digest of `value`, the formatted value
    /// read there.
    pub fn capture(row: i32, col: i32, value: Fetched<String>) -> (s: Self)
        ensures
            s.row == row,
            s.col == col,
            s.value_hash == spec_hash_cell_value(value),
            s.value_hash is None <==> value is BridgeFailed,
    {
        ActiveCellSnapshot { row, col, value_hash: hash_cell_value(value) }
    }

    /// Whether `live`, the value read now at the snapshot's coordinates,
    /// digests as the captured one. Only two known and equal digests match:
    /// an unknown value on either side cannot prove the cell unchanged.
    pub fn matches(&self, live: Fetched<String>) -> (b: bool)
        ensures
            b == (self.value_hash is Some && self.value_hash == spec_hash_cell_value(live)),
    {
        match (self.value_hash, hash_cell_value(live)) {
            (Some(captured), Some(now)) => captured.0 == now.0,
            _ => false,
        }
    }
}

/// The first of the hard breaks, in order, on which `inputs` diverge from
/// the committed frame `prev`: canvas size, DPR, theme, model generation,
/// sheet, frozen counts, header visibility.
pub open spec fn hard_break(prev: Chrome, inputs: InputsModel, dpr_unchanged: bool, theme_unchanged: bool) -> Option<
    RebuildReason,
> {
    if inputs.logical_width != prev.logical_width || inputs.logical_height != prev.logical_height {
        Some(RebuildReason::Size)
    } else if !dpr_unchanged {
        Some(RebuildReason::Dpr)
    } else if !theme_unchanged {
        Some(RebuildReason::Theme)
    } else if inputs.model_generation != prev.model_generation {
        Some(RebuildReason::Model)
    } else if inputs.sheet != prev.sheet {
        Some(RebuildReason::Sheet)
    } else if inputs.frozen_rows != prev.pane_set.rows.frozen@.len() || inputs.frozen_cols
        != prev.pane_set.cols.frozen@.len() {
        Some(RebuildReason::Freeze)
    } else if inputs.show_row_headers != prev.show_row_headers || inputs.show_col_headers
        != prev.show_col_headers {
        Some(RebuildReason::Headers)
    } else {
        None
    }
}

/// A committed frame can be kept or shifted for an attempt only when the
/// two agree on every hard field: canvas size, device pixel ratio, theme,
/// model generation, selected sheet, frozen counts and header visibility.
pub open spec fn frame_fits_attempt(prev: Chrome, inputs: InputsModel, dpr_unchanged: bool, theme_unchanged: bool) -> bool {
    &&& inputs.logical_width == prev.logical_width
    &&& inputs.logical_height == prev.logical_height
    &&& dpr_unchanged
    &&& theme_unchanged
    &&& inputs.model_generation == prev.model_generation
    &&& inputs.sheet == prev.sheet
    &&& inputs.frozen_rows == prev.pane_set.rows.frozen@.len()
    &&& inputs.frozen_cols == prev.pane_set.cols.frozen@.len()
    &&& inputs.show_row_headers == prev.show_row_headers
    &&& inputs.show_col_headers == prev.show_col_headers
}

/// Whether the attempt's first scroll row and first scroll column differ
/// from the committed frame's.
pub open spec fn origins_moved(prev: Chrome, s: InputsModel) -> (bool, bool) {
    (
        spec_scroll_first(s.frozen_rows as int, s.view.top_row as int) != spec_top_id(prev.pane_set.rows.scroll@),
        spec_scroll_first(s.frozen_cols as int, s.view.left_column as int) != spec_top_id(prev.pane_set.cols.scroll@),
    )
}

/// No hard break exactly when the committed frame fits the attempt on
/// every hard field; in particular a change of selected sheet (or size,
/// DPR, theme, model, frozen counts, header visibility) always breaks.
pub proof fn lemma_hard_break_iff_mismatch(prev: Chrome, inputs: InputsModel, dpr_unchanged: bool, theme_unchanged: bool)
    ensures
        hard_break(prev, inputs, dpr_unchanged, theme_unchanged) is None <==> frame_fits_attempt(
            prev,
            inputs,
            dpr_unchanged,
            theme_unchanged,
        ),
        inputs.sheet != prev.sheet ==> hard_break(prev, inputs, dpr_unchanged, theme_unchanged) is Some,
{
}

/// What [`try_blit_rows`] decides for `prev` scrolled to `new_top`.
pub open spec fn rows_blit_outcome<F: Fn(i32) -> Option<i32>>(
    prev: Chrome,
    new_top: int,
    measure: F,
    r: Option<BlitPlan>,
) -> bool {
    let w = prev.logical_width as int;
    let h = prev.logical_height as int;
    let pane_x = prev.pane_set.cols.frozen_offset as int;
    let pane_y = prev.pane_set.rows.frozen_offset as int;
    &&& (w - pane_x <= 0 || h - pane_y <= 0) ==> r is None
    &&& (w - pane_x > 0 && h - pane_y > 0) ==> exists|probe: Option<(i32, ShiftDir)>|
        #[trigger] probe_outcome(measure, prev.pane_set.rows.scroll@, new_top, pane_y, h - pane_y, probe) && r
            == plan_of_probe(
            probe,
            Axis::Row,
            AxisRange { origin: pane_y as i32, size: (h - pane_y) as i32 },
            AxisRange { origin: prev.cell_origin.x, size: (w - prev.cell_origin.x) as i32 },
            h,
        )
}

/// What [`try_blit_cols`] decides for `prev` scrolled to `new_left`.
pub open spec fn cols_blit_outcome<F: Fn(i32) -> Option<i32>>(
    prev: Chrome,
    new_left: int,
    measure: F,
    r: Option<BlitPlan>,
) -> bool {
    let w = prev.logical_width as int;
    let h = prev.logical_height as int;
    let pane_x = prev.pane_set.cols.frozen_offset as int;
    let pane_y = prev.pane_set.rows.frozen_offset as int;
    &&& (w - pane_x <= 0 || h - pane_y <= 0) ==> r is None
    &&& (w - pane_x > 0 && h - pane_y > 0) ==> exists|probe: Option<(i32, ShiftDir)>|
        #[trigger] probe_outcome(measure, prev.pane_set.cols.scroll@, new_left, pane_x, w - pane_x, probe) && r
            == plan_of_probe(
            probe,
            Axis::Column,
            AxisRange { origin: pane_x as i32, size: (w - pane_x) as i32 },
            AxisRange { origin: prev.cell_origin.y, size: (h - prev.cell_origin.y) as i32 },
            w,
        )
}

/// A scroll verdict from an optional blit plan.
pub open spec fn scroll_or_incompatible(plan: Option<BlitPlan>) -> FrameDelta {
    match plan {
        Some(p) => FrameDelta::Scroll(p),
        None => FrameDelta::Rebuild(RebuildReason::IncompatibleScrollOverlap),
    }
}

impl Chrome {
    /// Classify a paint attempt against the committed frame `prev`.
    ///
    /// No committed frame rebuilds first; then the hard breaks rebuild, in
    /// a fixed order so that a divergence always reports under the same
    /// reason (canvas size, DPR, theme, model generation, sheet, frozen
    /// counts, header visibility). `dpr_unchanged`/`theme_unchanged` say
    /// whether the attempt's DPR and theme equal the committed frame's.
    /// Past those, the effective scroll origins decide: neither axis moved
    /// is `Stable`; both moved rebuilds (no single shift expresses a
    /// diagonal scroll); exactly one moved needs the active-cell snapshot
    /// (rebuild when absent), its value unchanged (`read_value` reads the
    /// live formatted value at the snapshot's cell once; an unknown value
    /// on either side, or a different digest, rebuilds as
    /// `ActiveCellChangedOrUnknown`), and an accepted overlap probe
    /// (`measure_row`/`measure_col` report row heights and column widths)
    /// for a `Scroll`; otherwise the scroll rebuilds as incompatible.
    pub fn classify<V: Fn(i32, i32) -> Fetched<String>, F: Fn(i32) -> Option<i32>, G: Fn(i32) -> Option<i32>>(
        prev: Option<&Chrome>,
        inputs: &FrameInputs,
        dpr_unchanged: bool,
        theme_unchanged: bool,
        active_cell: Option<&ActiveCellSnapshot>,
        read_value: V,
        measure_row: F,
        measure_col: G,
    ) -> (r: FrameDelta)
        requires
            forall|row: i32, col: i32| read_value.requires((row, col)),
            forall|id: i32| measure_row.requires((id,)),
            forall|id: i32| measure_col.requires((id,)),
            prev matches Some(p) ==> p.wf(),
        ensures
            (r is Stable || r is Scroll) ==> (prev matches Some(p) && frame_fits_attempt(
                *p,
                inputs.snapshot(),
                dpr_unchanged,
                theme_unchanged,
            )),
            r is Stable ==> (prev matches Some(p) && origins_moved(*p, inputs.snapshot()) == (false, false)),
            r is Scroll ==> (prev matches Some(p) && {
                let m = origins_moved(*p, inputs.snapshot());
                &&& m.0 != m.1
                &&& active_cell matches Some(a) && a.value_hash is Some
            }),
            match prev {
                None => r == FrameDelta::Rebuild(RebuildReason::NoCommittedFrame),
                Some(p) => match hard_break(*p, inputs.snapshot(), dpr_unchanged, theme_unchanged) {
                    Some(reason) => r == FrameDelta::Rebuild(reason),
                    None => {
                        let s = inputs.snapshot();
                        let new_top = spec_scroll_first(s.frozen_rows as int, s.view.top_row as int);
                        let new_left = spec_scroll_first(s.frozen_cols as int, s.view.left_column as int);
                        let top_changed = new_top != spec_top_id(p.pane_set.rows.scroll@);
                        let left_changed = new_left != spec_top_id(p.pane_set.cols.scroll@);
                        &&& (!top_changed && !left_changed) ==> r == FrameDelta::Stable
                        &&& (top_changed && left_changed) ==> r == FrameDelta::Rebuild(RebuildReason::TwoAxisScroll)
                        &&& top_changed != left_changed ==> match active_cell {
                            None => r == FrameDelta::Rebuild(RebuildReason::MissingActiveSnapshot),
                            Some(a) => {
                                &&& a.value_hash is None ==> r == FrameDelta::Rebuild(
                                    RebuildReason::ActiveCellChangedOrUnknown,
                                )
                                &&& exists|live: Fetched<String>|
                                    #[trigger] call_ensures(read_value, (a.row, a.col), live) && if a.value_hash is Some
                                        && a.value_hash == spec_hash_cell_value(live) {
                                        exists|plan: Option<BlitPlan>|
                                            #![trigger scroll_or_incompatible(plan)]
                                            r == scroll_or_incompatible(plan) && if top_changed {
                                                rows_blit_outcome(*p, new_top, measure_row, plan)
                                            } else {
                                                cols_blit_outcome(*p, new_left, measure_col, plan)
                                            }
                                    } else {
                                        r == FrameDelta::Rebuild(RebuildReason::ActiveCellChangedOrUnknown)
                                    }
                            },
                        }
                    },
                },
            },
    {
        let prev = match prev {
            Some(p) => p,
            None => {
                return FrameDelta::Rebuild(RebuildReason::NoCommittedFrame);
            },
        };
        proof {
            use_type_invariant(inputs);
            inputs.lemma_wf();
        }
        let (w, h) = inputs.logical_extent();
        if w != prev.logical_width || h != prev.logical_height {
            return FrameDelta::Rebuild(RebuildReason::Size);
        }
        if !dpr_unchanged {
            return FrameDelta::Rebuild(RebuildReason::Dpr);
        }
        if !theme_unchanged {
            return FrameDelta::Rebuild(RebuildReason::Theme);
        }
        if inputs.model_generation() != prev.model_generation {
            return FrameDelta::Rebuild(RebuildReason::Model);
        }
        let sheet = inputs.sheet();
        if sheet != prev.sheet {
            return FrameDelta::Rebuild(RebuildReason::Sheet);
        }
        let frozen_rows = inputs.frozen_rows();
        let frozen_cols = inputs.frozen_cols();
        if frozen_rows != prev.pane_set.rows.frozen_count() || frozen_cols != prev.pane_set.cols.frozen_count() {
            return FrameDelta::Rebuild(RebuildReason::Freeze);
        }
        if inputs.show_row_headers() != prev.show_row_headers || inputs.show_col_headers()
            != prev.show_col_headers {
            return FrameDelta::Rebuild(RebuildReason::Headers);
        }
        let view = inputs.view();
        let new_top = scroll_first(frozen_rows, view.top_row);
        let new_left = scroll_first(frozen_cols, view.left_column);
        let top_changed = new_top != prev.pane_set.top_row();
        let left_changed = new_left != prev.pane_set.left_column();
        if !top_changed && !left_changed {
            return FrameDelta::Stable;
        }
        if top_changed && left_changed {
            return FrameDelta::Rebuild(RebuildReason::TwoAxisScroll);
        }
        let active = match active_cell {
            Some(a) => a,
            None => {
                return FrameDelta::Rebuild(RebuildReason::MissingActiveSnapshot);
            },
        };
        let live = read_value(active.row, active.col);
        let ghost g_live = live;
        if !active.matches(live) {
            proof {
                assert(call_ensures(read_value, (active.row, active.col), g_live));
            }
            return FrameDelta::Rebuild(RebuildReason::ActiveCellChangedOrUnknown);
        }
        let plan = if top_changed {
            try_blit_rows(prev, new_top, measure_row)
        } else {
            try_blit_cols(prev, new_left, measure_col)
        };
        proof {
            assert(scroll_or_incompatible(plan) == match plan { Some(p) => FrameDelta::Scroll(p), None => FrameDelta::Rebuild(RebuildReason::IncompatibleScrollOverlap) });
            assert(call_ensures(read_value, (active.row, active.col), g_live));
        }
        match plan {
            Some(p) => FrameDelta::Scroll(p),
            None => FrameDelta::Rebuild(RebuildReason::IncompatibleScrollOverlap),
        }
    }
}

} // verus!
