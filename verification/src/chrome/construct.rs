//! Construction of a frame's geometry: the full walk (rows, then the row
//! header's width, then columns, then labels) and the reuse of a committed
//! frame's slots.

use vstd::prelude::*;

use crate::address::imax;
use crate::chrome::{Chrome, FrameKindTag};
use crate::chrome::blit::{blit_row_header_thickness, fits_every_row_label, gate_row, rows_ascending};
use crate::chrome::pane_set::{PaneSet, decimal_digits, header_width_for_digits, labels_of};
use crate::chrome::recycled_slots::RecycledSlots;
use crate::frame::inputs::{FrameInputs, InputsModel};
use crate::geometry::constants::{CELL_AREA_INSET, HEADER_ROW_HEIGHT};
use crate::geometry::prim::Point;
use crate::geometry::slot::{AxisSlots, RowSlot, fill_outcome};

verus! {

/// Width of the row-header strip for a band whose gate row (see
/// [`gate_row`]) decides the label width; zero when the strip is hidden.
pub open spec fn thickness_for(scroll_rows: Seq<RowSlot>, frozen_rows: int, top_row: int, show: bool) -> int {
    if show {
        header_width_for_digits(decimal_digits(imax(gate_row(scroll_rows, frozen_rows, top_row), 1)))
    } else {
        0
    }
}

/// Row-header thickness for the given band: the width the widest visible
/// row label needs, or zero when row headers are hidden (a hidden strip is
/// modelled as thickness zero).
pub fn row_header_thickness_for(scroll_rows: &[RowSlot], frozen_rows_count: i32, new_top: i32, show_row_headers: bool) -> (w:
    i32)
    requires
        frozen_rows_count < i32::MAX,
    ensures
        w == thickness_for(scroll_rows@, frozen_rows_count as int, new_top as int, show_row_headers),
        show_row_headers && rows_ascending(scroll_rows@) ==> fits_every_row_label(w as int, scroll_rows@),
        !show_row_headers ==> w == 0,
{
    if show_row_headers {
        blit_row_header_thickness(scroll_rows, frozen_rows_count, new_top)
    } else {
        0
    }
}

/// Which construction the orchestrator selected for the next frame: the
/// full walk, or the committed frame's slots reused verbatim.
#[derive(Clone, Copy, Debug, PartialEq, Eq, Structural)]
pub enum FramePath {
    Fresh,
    SlotsReuse,
}

/// Outcome of the full walk: a built frame, or a held attempt (a row-height
/// or column-width read failed, so no geometry can be trusted) handing the
/// slot pool back for the retry.
pub enum FreshBuild {
    Ready(Chrome),
    Held(RecycledSlots),
}

/// Top edge of the cell area: below the column-header strip and its border
/// when the strip shows, else the canvas top.
pub open spec fn origin_y_for(show_col_headers: bool) -> int {
    if show_col_headers { HEADER_ROW_HEIGHT + CELL_AREA_INSET } else { 0 }
}

/// Left edge of the cell area: past the row-header strip and its border
/// when the strip shows, else the canvas left.
pub open spec fn origin_x_for(show_row_headers: bool, row_header_thickness: int) -> int {
    if show_row_headers { row_header_thickness + CELL_AREA_INSET } else { 0 }
}

/// `c` carries the per-attempt scalars of `s`.
pub open spec fn carries_inputs(c: Chrome, s: InputsModel) -> bool {
    &&& c.sheet == s.sheet
    &&& c.logical_width == s.logical_width
    &&& c.logical_height == s.logical_height
    &&& c.model_generation == s.model_generation
    &&& c.show_row_headers == s.show_row_headers
    &&& c.show_col_headers == s.show_col_headers
}

/// What a full walk built from `s`: rows filled from the top of the cell
/// area, the row header sized from the filled rows, columns filled from the
/// left of the cell area, and one label per slot.
pub open spec fn built_from<F: Fn(i32) -> Option<i32>, G: Fn(i32) -> Option<i32>, L: Fn(i32) -> String, M: Fn(
    i32,
) -> String>(
    c: Chrome,
    s: InputsModel,
    recycled: RecycledSlots,
    last_row: i32,
    last_column: i32,
    measure_row: F,
    measure_col: G,
    row_label: L,
    col_label: M,
) -> bool {
    let oy = origin_y_for(s.show_col_headers);
    let ox = origin_x_for(s.show_row_headers, c.row_header_thickness as int);
    &&& carries_inputs(c, s)
    &&& c.kind == FrameKindTag::Fresh
    &&& c.col_header_thickness == if s.show_col_headers { HEADER_ROW_HEIGHT } else { 0 }
    &&& c.row_header_thickness == thickness_for(
        c.pane_set.rows.scroll@,
        s.frozen_rows as int,
        s.view.top_row as int,
        s.show_row_headers,
    )
    &&& c.cell_origin == Point { x: ox as i32, y: oy as i32 }
    &&& fill_outcome(
        measure_row,
        AxisSlots { frozen: recycled.frozen_rows, scroll: recycled.scroll_rows, frozen_offset: 0, last_id: 0 },
        c.pane_set.rows,
        s.frozen_rows,
        oy as i32,
        s.view.top_row,
        last_row,
        s.logical_height,
        true,
    )
    &&& fill_outcome(
        measure_col,
        AxisSlots { frozen: recycled.frozen_cols, scroll: recycled.scroll_cols, frozen_offset: 0, last_id: 0 },
        c.pane_set.cols,
        s.frozen_cols,
        ox as i32,
        s.view.left_column,
        last_column,
        s.logical_width,
        true,
    )
    &&& labels_of(row_label, c.pane_set.rows.frozen@ + c.pane_set.rows.scroll@, c.pane_set.row_header_labels@)
    &&& labels_of(col_label, c.pane_set.cols.frozen@ + c.pane_set.cols.scroll@, c.pane_set.col_header_labels@)
}

/// What [`Chrome::build`] answers for snapshot `s` and pool `recycled`:
/// a frame built from them, or a hold because the row walk aborted, or the
/// row walk succeeded and the column walk aborted.
pub open spec fn build_outcome<F: Fn(i32) -> Option<i32>, G: Fn(i32) -> Option<i32>, L: Fn(i32) -> String, M: Fn(
    i32,
) -> String>(
    r: FreshBuild,
    s: InputsModel,
    recycled: RecycledSlots,
    last_row: i32,
    last_column: i32,
    measure_row: F,
    measure_col: G,
    row_label: L,
    col_label: M,
) -> bool {
            match r {
                FreshBuild::Ready(c) => built_from(
                    c,
                    s,
                    recycled,
                    last_row,
                    last_column,
                    measure_row,
                    measure_col,
                    row_label,
                    col_label,
                ),
                FreshBuild::Held(_) => {
                    let rows_before = AxisSlots {
                        frozen: recycled.frozen_rows,
                        scroll: recycled.scroll_rows,
                        frozen_offset: 0,
                        last_id: 0,
                    };
                    ||| exists|rows: AxisSlots<RowSlot>|
                        #[trigger] fill_outcome(
                            measure_row,
                            rows_before,
                            rows,
                            s.frozen_rows,
                            origin_y_for(s.show_col_headers) as i32,
                            s.view.top_row,
                            last_row,
                            s.logical_height,
                            false,
                        )
                    ||| exists|c: Chrome| #[trigger] held_on_columns(c, s, recycled, last_row, last_column, measure_row, measure_col)
                },
            }
}

impl Chrome {
    /// The full walk from a capture snapshot and a slot pool: rows from the
    /// cell area's top (below the column header when it shows), bounded by
    /// `last_row` and the canvas height; the row header sized from the
    /// filled rows; columns from the cell area's left (past the row header
    /// when it shows), bounded by `last_column` and the canvas width; then
    /// one label per slot. `measure_row`/`measure_col` report extents
    /// (`None` for a failed read) and `row_label`/`col_label` header texts.
    /// Held when either walk aborts.
    pub fn build<F: Fn(i32) -> Option<i32>, G: Fn(i32) -> Option<i32>, L: Fn(i32) -> String, M: Fn(i32) -> String>(
        inputs: &FrameInputs,
        recycled: RecycledSlots,
        last_row: i32,
        last_column: i32,
        measure_row: F,
        measure_col: G,
        row_label: L,
        col_label: M,
    ) -> (r: FreshBuild)
        requires
            forall|id: i32| measure_row.requires((id,)),
            forall|id: i32| measure_col.requires((id,)),
            forall|id: i32| row_label.requires((id,)),
            forall|id: i32| col_label.requires((id,)),
        ensures
            build_outcome(r, inputs.snapshot(), recycled, last_row, last_column, measure_row, measure_col, row_label, col_label),
    {
        proof {
            use_type_invariant(inputs);
            inputs.lemma_wf();
        }
        let view = inputs.view();
        let sheet = inputs.sheet();
        let show_row = inputs.show_row_headers();
        let show_col = inputs.show_col_headers();
        let frozen_row_count = inputs.frozen_rows();
        let frozen_col_count = inputs.frozen_cols();
        let (canvas_w, canvas_h) = inputs.logical_extent();
        let ghost pool = recycled;
        let mut pane_set = PaneSet::with_recycled(recycled);
        let origin_y: i32 = if show_col { HEADER_ROW_HEIGHT + CELL_AREA_INSET } else { 0 };
        let ghost rows_before = pane_set.rows;
        let rows_ok = pane_set.fill_rows(frozen_row_count, origin_y, view.top_row, last_row, canvas_h, measure_row);
        proof {
            assert(rows_before == AxisSlots { frozen: pool.frozen_rows, scroll: pool.scroll_rows, frozen_offset: 0i32, last_id: 0i32 });
            assert(fill_outcome(measure_row, rows_before, pane_set.rows, frozen_row_count, origin_y, view.top_row, last_row, canvas_h, rows_ok));
        }
        if !rows_ok {
            proof {
                let s = inputs.snapshot();
                assert(origin_y_for(s.show_col_headers) as i32 == origin_y);
                assert(fill_outcome(
                    measure_row,
                    AxisSlots { frozen: pool.frozen_rows, scroll: pool.scroll_rows, frozen_offset: 0, last_id: 0 },
                    pane_set.rows,
                    s.frozen_rows,
                    origin_y_for(s.show_col_headers) as i32,
                    s.view.top_row,
                    last_row,
                    s.logical_height,
                    false,
                ));
            }
            return FreshBuild::Held(RecycledSlots::from_pane_set(pane_set));
        }
        let row_header_thickness = row_header_thickness_for(
            pane_set.rows.scroll.as_slice(),
            frozen_row_count,
            view.top_row,
            show_row,
        );
        let origin_x: i32 = if show_row { row_header_thickness + CELL_AREA_INSET } else { 0 };
        let ghost cols_before = pane_set.cols;
        let ghost rows_after = pane_set.rows;
        if !pane_set.fill_cols(frozen_col_count, origin_x, view.left_column, last_column, canvas_w, measure_col) {
            proof {
                let c = Chrome {
                    sheet,
                    pane_set,
                    row_header_thickness,
                    col_header_thickness: 0,
                    cell_origin: Point { x: origin_x, y: origin_y },
                    logical_width: canvas_w,
                    logical_height: canvas_h,
                    model_generation: 0,
                    show_row_headers: show_row,
                    show_col_headers: show_col,
                    kind: FrameKindTag::Fresh,
                };
                assert(held_on_columns(c, inputs.snapshot(), pool, last_row, last_column, measure_row, measure_col));
            }
            return FreshBuild::Held(RecycledSlots::from_pane_set(pane_set));
        }
        let row_labels = PaneSet::resolve_row_labels(
            pane_set.rows.frozen.as_slice(),
            pane_set.rows.scroll.as_slice(),
            &row_label,
        );
        let col_labels = PaneSet::resolve_col_labels(
            pane_set.cols.frozen.as_slice(),
            pane_set.cols.scroll.as_slice(),
            &col_label,
        );
        pane_set.row_header_labels = row_labels;
        pane_set.col_header_labels = col_labels;
        let col_header_thickness = if show_col { HEADER_ROW_HEIGHT } else { 0 };
        FreshBuild::Ready(
            Chrome {
                sheet,
                pane_set,
                row_header_thickness,
                col_header_thickness,
                cell_origin: Point { x: origin_x, y: origin_y },
                logical_width: canvas_w,
                logical_height: canvas_h,
                model_generation: inputs.model_generation(),
                show_row_headers: show_row,
                show_col_headers: show_col,
                kind: FrameKindTag::Fresh,
            },
        )
    }
}

/// The row walk of a full build succeeded (giving `c`'s rows and row
/// header) and the column walk aborted.
pub open spec fn held_on_columns<F: Fn(i32) -> Option<i32>, G: Fn(i32) -> Option<i32>>(
    c: Chrome,
    s: InputsModel,
    recycled: RecycledSlots,
    last_row: i32,
    last_column: i32,
    measure_row: F,
    measure_col: G,
) -> bool {
    let oy = origin_y_for(s.show_col_headers);
    let ox = origin_x_for(s.show_row_headers, c.row_header_thickness as int);
    &&& fill_outcome(
        measure_row,
        AxisSlots { frozen: recycled.frozen_rows, scroll: recycled.scroll_rows, frozen_offset: 0, last_id: 0 },
        c.pane_set.rows,
        s.frozen_rows,
        oy as i32,
        s.view.top_row,
        last_row,
        s.logical_height,
        true,
    )
    &&& c.row_header_thickness == thickness_for(
        c.pane_set.rows.scroll@,
        s.frozen_rows as int,
        s.view.top_row as int,
        s.show_row_headers,
    )
    &&& fill_outcome(
        measure_col,
        AxisSlots { frozen: recycled.frozen_cols, scroll: recycled.scroll_cols, frozen_offset: 0, last_id: 0 },
        c.pane_set.cols,
        s.frozen_cols,
        ox as i32,
        s.view.left_column,
        last_column,
        s.logical_width,
        false,
    )
}

impl Chrome {
    /// The next frame along `path`. `Fresh` is the full walk, recycling
    /// `prev`'s slot allocations when there is a previous frame. `SlotsReuse`
    /// keeps `prev`'s slots, labels and measured geometry verbatim and
    /// refreshes only the per-attempt scalars from `inputs`; without a
    /// previous frame it falls back to `Fresh`. A held walk is answered as
    /// [`FreshBuild::Held`].
    pub fn next<F: Fn(i32) -> Option<i32>, G: Fn(i32) -> Option<i32>, L: Fn(i32) -> String, M: Fn(i32) -> String>(
        prev: Option<Chrome>,
        inputs: &FrameInputs,
        path: FramePath,
        last_row: i32,
        last_column: i32,
        measure_row: F,
        measure_col: G,
        row_label: L,
        col_label: M,
    ) -> (r: FreshBuild)
        requires
            forall|id: i32| measure_row.requires((id,)),
            forall|id: i32| measure_col.requires((id,)),
            forall|id: i32| row_label.requires((id,)),
            forall|id: i32| col_label.requires((id,)),
        ensures
            path == FramePath::SlotsReuse && prev is Some ==> (r matches FreshBuild::Ready(c) && {
                let p = prev->0;
                let s = inputs.snapshot();
                &&& c.sheet == p.sheet
                &&& c.logical_width == s.logical_width
                &&& c.logical_height == s.logical_height
                &&& c.model_generation == s.model_generation
                &&& c.show_row_headers == s.show_row_headers
                &&& c.show_col_headers == s.show_col_headers
                &&& c.pane_set == p.pane_set
                &&& c.row_header_thickness == p.row_header_thickness
                &&& c.col_header_thickness == p.col_header_thickness
                &&& c.cell_origin == p.cell_origin
                &&& c.kind == FrameKindTag::SlotsReused
            }),
            !(path == FramePath::SlotsReuse && prev is Some) ==> exists|pool: RecycledSlots|
                {
                    &&& pool.frozen_rows@.len() == 0
                    &&& pool.scroll_rows@.len() == 0
                    &&& pool.frozen_cols@.len() == 0
                    &&& pool.scroll_cols@.len() == 0
                    &&& #[trigger] build_outcome(
                        r,
                        inputs.snapshot(),
                        pool,
                        last_row,
                        last_column,
                        measure_row,
                        measure_col,
                        row_label,
                        col_label,
                    )
                },
    {
        match path {
            FramePath::SlotsReuse => {
                match prev {
                    Some(p) => {
                        let mut p = p;
                        let (w, h) = inputs.logical_extent();
                        p.logical_width = w;
                        p.logical_height = h;
                        p.model_generation = inputs.model_generation();
                        p.show_row_headers = inputs.show_row_headers();
                        p.show_col_headers = inputs.show_col_headers();
                        p.kind = FrameKindTag::SlotsReused;
                        return FreshBuild::Ready(p);
                    },
                    None => {},
                }
            },
            FramePath::Fresh => {},
        }
        let recycled = match prev {
            Some(c) => RecycledSlots::from_pane_set(c.pane_set),
            None => RecycledSlots {
                frozen_rows: Vec::new(),
                scroll_rows: Vec::new(),
                frozen_cols: Vec::new(),
                scroll_cols: Vec::new(),
            },
        };
        let ghost pool = recycled;
        let r = Chrome::build(inputs, recycled, last_row, last_column, measure_row, measure_col, row_label, col_label);
        proof {
            assert(build_outcome(r, inputs.snapshot(), pool, last_row, last_column, measure_row, measure_col, row_label, col_label));
        }
        r
    }
}

} // verus!
