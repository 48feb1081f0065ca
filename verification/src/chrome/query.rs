//! Pixel-space queries against one committed frame: cell and range
//! rectangles, the autofill handle, hit-testing and resize edges.

use vstd::prelude::*;

use crate::address::{RCRange, imax};
use crate::chrome::Chrome;
use crate::geometry::constants::AUTOFILL_HANDLE_PX;
use crate::geometry::pixel_rect::PixelRect;
use crate::geometry::prim::Point;
use crate::geometry::slot::{
    AxisSlot, boundary_walk, covered_by, first_covering, lemma_boundary_walk, lemma_first_covering, slot_end, spec_frozen_span,
    spec_last_visible_id, spec_scroll_span, span_union, uncovered,
};
use crate::ui::{HitTest, ResizeTarget};
use crate::address::imin;

verus! {

impl Chrome {
    /// Pixel bounds of cell `(row, col)`, when both its row and its column
    /// are painted in this frame.
    pub open spec fn spec_cell_rect(&self, row: int, col: int) -> Option<PixelRect> {
        match (self.pane_set.rows.spec_slot(row), self.pane_set.cols.spec_slot(col)) {
            (Some(r), Some(c)) => Some(
                PixelRect {
                    top_left: Point { x: c.left, y: r.top },
                    width: c.width,
                    height: r.height,
                },
            ),
            _ => None,
        }
    }

    /// Pixel span of the column interval `[lo, hi]` across both column bands.
    pub open spec fn col_span(&self, lo: int, hi: int) -> Option<(i32, i32)> {
        span_union(
            spec_frozen_span(self.pane_set.cols.frozen@, lo, hi),
            spec_scroll_span(self.pane_set.cols.scroll@, lo, hi),
        )
    }

    /// Pixel span of the row interval `[lo, hi]` across both row bands.
    pub open spec fn row_span(&self, lo: int, hi: int) -> Option<(i32, i32)> {
        span_union(
            spec_frozen_span(self.pane_set.rows.frozen@, lo, hi),
            spec_scroll_span(self.pane_set.rows.scroll@, lo, hi),
        )
    }

    /// Whether column `c` lies past the last painted column.
    pub open spec fn past_last_col(&self, c: int) -> bool {
        c > imax(
            self.pane_set.cols.frozen@.len() as int,
            spec_last_visible_id(self.pane_set.cols.scroll@),
        )
    }

    /// Whether row `r` lies past the last painted row.
    pub open spec fn past_last_row(&self, r: int) -> bool {
        r > imax(
            self.pane_set.rows.frozen@.len() as int,
            spec_last_visible_id(self.pane_set.rows.scroll@),
        )
    }

    /// Pixel bounds of `range`: each axis's interval projected onto its
    /// painted bands, running to the canvas edge when the range continues
    /// past the last painted id, and never negative.
    pub open spec fn spec_range_rect(&self, range: RCRange) -> Option<PixelRect> {
        match (
            self.col_span(range.lo_col(), range.hi_col()),
            self.row_span(range.lo_row(), range.hi_row()),
        ) {
            (Some((x, right0)), Some((y, bottom0))) => {
                let right = if self.past_last_col(range.hi_col()) {
                    self.logical_width as int
                } else {
                    right0 as int
                };
                let bottom = if self.past_last_row(range.hi_row()) {
                    self.logical_height as int
                } else {
                    bottom0 as int
                };
                Some(
                    PixelRect {
                        top_left: Point { x, y },
                        width: imax(right - x, 0) as i32,
                        height: imax(bottom - y, 0) as i32,
                    },
                )
            },
            _ => None,
        }
    }

    /// Bottom-right corner of the selection's last cell, unless that cell
    /// reaches the model's last row or column or is not painted.
    pub open spec fn spec_autofill_handle(&self, selection: RCRange) -> Option<Point> {
        let r2 = selection.hi_row();
        let c2 = selection.hi_col();
        if r2 >= self.pane_set.rows.last_id || c2 >= self.pane_set.cols.last_id {
            None
        } else {
            match (self.pane_set.rows.spec_slot(r2), self.pane_set.cols.spec_slot(c2)) {
                (Some(r), Some(c)) => Some(
                    Point { x: (c.left + c.width) as i32, y: (r.top + r.height) as i32 },
                ),
                _ => None,
            }
        }
    }

    /// The autofill handle's square, [`AUTOFILL_HANDLE_PX`] per side, with
    /// its bottom-right corner at the handle anchor.
    pub open spec fn spec_autofill_handle_rect(&self, selection: RCRange) -> Option<PixelRect> {
        match self.spec_autofill_handle(selection) {
            Some(p) => Some(
                PixelRect {
                    top_left: Point { x: (p.x - AUTOFILL_HANDLE_PX) as i32, y: (p.y - AUTOFILL_HANDLE_PX) as i32 },
                    width: AUTOFILL_HANDLE_PX,
                    height: AUTOFILL_HANDLE_PX,
                },
            ),
            None => None,
        }
    }

    /// What pixel `(x, y)` hits on the grid: outside, the header corner box,
    /// a header label, or a cell.
    pub open spec fn spec_hit_test(&self, x: int, y: int) -> HitTest {
        let rows = self.pane_set.rows.frozen@ + self.pane_set.rows.scroll@;
        let cols = self.pane_set.cols.frozen@ + self.pane_set.cols.scroll@;
        if x < 0 || y < 0 {
            HitTest::Outside
        } else if x < self.cell_origin.x && y < self.cell_origin.y {
            HitTest::Corner
        } else if y < self.cell_origin.y {
            match first_covering(cols, x, 0) {
                Some(c) => HitTest::ColumnHeader(c),
                None => HitTest::Outside,
            }
        } else if x < self.cell_origin.x {
            match first_covering(rows, y, 0) {
                Some(r) => HitTest::RowHeader(r),
                None => HitTest::Outside,
            }
        } else {
            match (first_covering(rows, y, 0), first_covering(cols, x, 0)) {
                (Some(row), Some(column)) => HitTest::Cell { row, column },
                _ => HitTest::Outside,
            }
        }
    }

    /// The resize edge a pointer at `(x, y)` grabs: a column's trailing
    /// edge inside the column-header strip, or a row's inside the row-header
    /// strip.
    pub open spec fn spec_resize_handle_at(&self, x: int, y: int, tolerance: int) -> Option<ResizeTarget> {
        let rows = self.pane_set.rows.frozen@ + self.pane_set.rows.scroll@;
        let cols = self.pane_set.cols.frozen@ + self.pane_set.cols.scroll@;
        if y < self.col_header_thickness && x > self.row_header_thickness {
            match boundary_walk(cols, x, tolerance, 0) {
                Some(c) => Some(ResizeTarget::ColumnEdge(c)),
                None => None,
            }
        } else if x < self.row_header_thickness && y > self.col_header_thickness {
            match boundary_walk(rows, y, tolerance, 0) {
                Some(r) => Some(ResizeTarget::RowEdge(r)),
                None => None,
            }
        } else {
            None
        }
    }

    /// Pixel bounds of cell `(row, col)`; `None` when its row or column is
    /// not painted in this frame.
    pub fn cell_rect(&self, row: i32, col: i32) -> (r: Option<PixelRect>)
        requires
            self.pane_set.indexable(),
        ensures
            r == self.spec_cell_rect(row as int, col as int),
    {
        let p = &self.pane_set;
        if !p.row_in_frame(row) || !p.col_in_frame(col) {
            return None;
        }
        Some(PixelRect {
            top_left: Point { x: p.col_to_x(col), y: p.row_to_y(row) },
            width: p.col_extent_at(col),
            height: p.row_extent_at(row),
        })
    }

    /// Map a sheet-coordinate range to canvas pixel bounds, clamping
    /// oversized selections to the canvas edge. `None` when no row or no
    /// column of the range is painted in this frame.
    ///
    /// Both axes are normalized once, then projected onto their
    /// frozen-plus-scroll union. A range that starts in the address gap and
    /// ends in the scroll band covers only the ids it names, and a range
    /// that overlaps only the frozen band returns its true rectangle.
    pub fn range_rect(&self, range: RCRange) -> (r: Option<PixelRect>)
        requires
            self.wf(),
        ensures
            r == self.spec_range_rect(range),
    {
        let norm = range.normalized();
        let p = &self.pane_set;
        let (canvas_w, canvas_h) = self.canvas_size();
        let (x, mut right) = match p.cols.project_interval(norm.c1, norm.c2) {
            Some(span) => span,
            None => {
                return None;
            },
        };
        let (y, mut bottom) = match p.rows.project_interval(norm.r1, norm.r2) {
            Some(span) => span,
            None => {
                return None;
            },
        };
        proof {
            self.lemma_spans_nonneg(norm.c1 as int, norm.c2 as int, norm.r1 as int, norm.r2 as int);
        }
        let fc = p.cols.frozen_count();
        let lv = p.cols.last_visible();
        if norm.c2 > (if fc >= lv { fc } else { lv }) {
            right = canvas_w;
        }
        let fr = p.rows.frozen_count();
        let lr = p.rows.last_visible();
        if norm.r2 > (if fr >= lr { fr } else { lr }) {
            bottom = canvas_h;
        }
        let w = right - x;
        let h = bottom - y;
        Some(PixelRect {
            top_left: Point { x, y },
            width: if w >= 0 { w } else { 0 },
            height: if h >= 0 { h } else { 0 },
        })
    }

    /// Projected spans start at a non-negative pixel in a painted frame.
    proof fn lemma_spans_nonneg(&self, c1: int, c2: int, r1: int, r2: int)
        requires
            self.wf(),
        ensures
            self.col_span(imin(c1, c2), imax(c1, c2)) matches Some((x, _)) ==> x >= 0,
            self.row_span(imin(r1, r2), imax(r1, r2)) matches Some((y, _)) ==> y >= 0,
    {
        let cf = self.pane_set.cols.frozen@;
        let cs = self.pane_set.cols.scroll@;
        let rf = self.pane_set.rows.frozen@;
        let rs = self.pane_set.rows.scroll@;
        if cf.len() > 0 {
            assert(cf[imax(imin(c1, c2), 1) - 1].left >= 0 || imax(imin(c1, c2), 1) - 1 >= cf.len()
                || imax(imin(c1, c2), 1) - 1 < 0);
        }
        if cs.len() > 0 {
            let f = cs[0].col as int;
            assert(0 <= imax(imin(c1, c2), f) - f < cs.len() ==> cs[imax(imin(c1, c2), f) - f].left >= 0);
        }
        if rf.len() > 0 {
            assert(rf[imax(imin(r1, r2), 1) - 1].top >= 0 || imax(imin(r1, r2), 1) - 1 >= rf.len()
                || imax(imin(r1, r2), 1) - 1 < 0);
        }
        if rs.len() > 0 {
            let f = rs[0].row as int;
            assert(0 <= imax(imin(r1, r2), f) - f < rs.len() ==> rs[imax(imin(r1, r2), f) - f].top >= 0);
        }
    }

    /// Bottom-right corner of the selection's last cell in canvas pixels.
    /// `None` if either coordinate reaches the model's last row or column
    /// (nothing beyond to fill into) or has no frame slot. Not clipped to
    /// the canvas.
    pub fn autofill_handle(&self, selection_range: RCRange) -> (r: Option<Point>)
        requires
            self.wf(),
        ensures
            r == self.spec_autofill_handle(selection_range),
    {
        let norm = selection_range.normalized();
        let r2 = norm.r2;
        let c2 = norm.c2;
        let p = &self.pane_set;
        if r2 >= p.rows.last_id || c2 >= p.cols.last_id {
            return None;
        }
        if !p.row_in_frame(r2) || !p.col_in_frame(c2) {
            return None;
        }
        proof {
            self.lemma_slot_ends_fit(r2 as int, c2 as int);
        }
        Some(Point {
            x: p.col_to_x(c2) + p.col_extent_at(c2),
            y: p.row_to_y(r2) + p.row_extent_at(r2),
        })
    }

    /// Painted slots have representable, non-negative far edges.
    proof fn lemma_slot_ends_fit(&self, row: int, col: int)
        requires
            self.wf(),
        ensures
            self.pane_set.rows.spec_slot(row) matches Some(r) ==> 0 <= r.top + r.height
                <= i32::MAX && r.top >= 0,
            self.pane_set.cols.spec_slot(col) matches Some(c) ==> 0 <= c.left + c.width
                <= i32::MAX && c.left >= 0,
    {
        let rf = self.pane_set.rows.frozen@;
        let rs = self.pane_set.rows.scroll@;
        let cf = self.pane_set.cols.frozen@;
        let cs = self.pane_set.cols.scroll@;
        if 1 <= row <= rf.len() {
            assert(crate::geometry::pixel_rect::fits_i32(crate::geometry::slot::slot_end(rf[row - 1])));
        }
        if rs.len() > 0 && 0 <= row - rs[0].row < rs.len() {
            assert(crate::geometry::pixel_rect::fits_i32(crate::geometry::slot::slot_end(rs[row - rs[0].row])));
        }
        if 1 <= col <= cf.len() {
            assert(crate::geometry::pixel_rect::fits_i32(crate::geometry::slot::slot_end(cf[col - 1])));
        }
        if cs.len() > 0 && 0 <= col - cs[0].col < cs.len() {
            assert(crate::geometry::pixel_rect::fits_i32(crate::geometry::slot::slot_end(cs[col - cs[0].col])));
        }
    }

    /// The autofill handle's fill rectangle, [`AUTOFILL_HANDLE_PX`] per
    /// side, with its bottom-right corner at [`Chrome::autofill_handle`].
    /// `None` under the same conditions as the anchor.
    pub fn autofill_handle_rect(&self, selection_range: RCRange) -> (r: Option<PixelRect>)
        requires
            self.wf(),
        ensures
            r == self.spec_autofill_handle_rect(selection_range),
    {
        let p = match self.autofill_handle(selection_range) {
            Some(p) => p,
            None => {
                return None;
            },
        };
        proof {
            self.lemma_slot_ends_fit(selection_range.hi_row(), selection_range.hi_col());
        }
        Some(PixelRect {
            top_left: Point { x: p.x - AUTOFILL_HANDLE_PX, y: p.y - AUTOFILL_HANDLE_PX },
            width: AUTOFILL_HANDLE_PX,
            height: AUTOFILL_HANDLE_PX,
        })
    }

    /// What pixel `(x, y)` hits on the grid: plain cell, header, corner, or
    /// outside. Decoration hits are resolved by the overlay layers.
    pub fn hit_test(&self, x: i32, y: i32) -> (h: HitTest)
        ensures
            h == self.spec_hit_test(x as int, y as int),
            hit_law(*self, x as int, y as int, h),
    {
        proof {
            lemma_hit_test(*self, x as int, y as int);
        }
        if x < 0 || y < 0 {
            return HitTest::Outside;
        }
        if x < self.cell_origin.x && y < self.cell_origin.y {
            return HitTest::Corner;
        }
        let p = &self.pane_set;
        if y < self.cell_origin.y {
            return match p.cols.pixel_to_id(x) {
                Some(c) => HitTest::ColumnHeader(c),
                None => HitTest::Outside,
            };
        }
        if x < self.cell_origin.x {
            return match p.rows.pixel_to_id(y) {
                Some(r) => HitTest::RowHeader(r),
                None => HitTest::Outside,
            };
        }
        match (p.rows.pixel_to_id(y), p.cols.pixel_to_id(x)) {
            (Some(row), Some(column)) => HitTest::Cell { row, column },
            _ => HitTest::Outside,
        }
    }

    /// The header edge a pointer at `(x, y)` grabs for a resize drag.
    pub fn resize_handle_at(&self, x: i32, y: i32, tolerance: i32) -> (r: Option<ResizeTarget>)
        requires
            self.pane_set.wf(),
        ensures
            r == self.spec_resize_handle_at(x as int, y as int, tolerance as int),
            resize_law(*self, x as int, y as int, tolerance as int, r),
    {
        proof {
            lemma_resize_handle(*self, x as int, y as int, tolerance as int);
        }
        if y < self.col_header_thickness && x > self.row_header_thickness {
            return match self.pane_set.cols.boundary_at(x, tolerance) {
                Some(c) => Some(ResizeTarget::ColumnEdge(c)),
                None => None,
            };
        }
        if x < self.row_header_thickness && y > self.col_header_thickness {
            return match self.pane_set.rows.boundary_at(y, tolerance) {
                Some(r) => Some(ResizeTarget::RowEdge(r)),
                None => None,
            };
        }
        None
    }
}

/// What a hit at `(x, y)` must be, read off the frame's regions: the
/// corner box exactly when the pixel lies left of and above the cell
/// origin; a column header only in the column-header strip, for a column
/// whose slot covers `x`; a row header only in the row-header strip, for a
/// row whose slot covers `y`; a cell only in the cell area, at a covering
/// row and column; and outside only off the canvas or where no slot of the
/// strip's axis covers the pixel.
pub open spec fn hit_law(frame: Chrome, x: int, y: int, h: HitTest) -> bool {
    let rows = frame.pane_set.rows.frozen@ + frame.pane_set.rows.scroll@;
    let cols = frame.pane_set.cols.frozen@ + frame.pane_set.cols.scroll@;
    let ox = frame.cell_origin.x as int;
    let oy = frame.cell_origin.y as int;
    &&& (h is Corner <==> (0 <= x < ox && 0 <= y < oy))
    &&& (h matches HitTest::ColumnHeader(c) ==> 0 <= y < oy && x >= ox && covered_by(cols, x, c))
    &&& (h matches HitTest::RowHeader(r) ==> 0 <= x < ox && y >= oy && covered_by(rows, y, r))
    &&& (h matches HitTest::Cell { row, column } ==> x >= ox && y >= oy && covered_by(rows, y, row)
        && covered_by(cols, x, column))
    &&& (h is Outside ==> {
        ||| x < 0 || y < 0
        ||| x >= ox && y < oy && uncovered(cols, x)
        ||| x < ox && y >= oy && uncovered(rows, y)
        ||| x >= ox && y >= oy && (uncovered(rows, y) || uncovered(cols, x))
    })
}

/// The hit test answers by region: see [`hit_law`].
pub proof fn lemma_hit_test(frame: Chrome, x: int, y: int)
    ensures
        hit_law(frame, x, y, frame.spec_hit_test(x, y)),
{
    let rows = frame.pane_set.rows.frozen@ + frame.pane_set.rows.scroll@;
    let cols = frame.pane_set.cols.frozen@ + frame.pane_set.cols.scroll@;
    lemma_first_covering(rows, y, 0);
    lemma_first_covering(cols, x, 0);
}

/// What a resize grab at `(x, y)` must be: a column edge only in the
/// column-header strip (above the header's bottom, right of the row
/// header), for a column whose far edge lies within `tolerance` of `x`; a
/// row edge only in the row-header strip (left of the header's right edge,
/// below the column header), for a row whose far edge lies within
/// `tolerance` of `y`; nothing outside both strips.
pub open spec fn resize_law(frame: Chrome, x: int, y: int, tolerance: int, r: Option<ResizeTarget>) -> bool {
    let rows = frame.pane_set.rows.frozen@ + frame.pane_set.rows.scroll@;
    let cols = frame.pane_set.cols.frozen@ + frame.pane_set.cols.scroll@;
    let in_col_strip = y < frame.col_header_thickness && x > frame.row_header_thickness;
    let in_row_strip = x < frame.row_header_thickness && y > frame.col_header_thickness;
    &&& (r matches Some(ResizeTarget::ColumnEdge(c)) ==> in_col_strip && exists|k: int|
        0 <= k < cols.len() && #[trigger] cols[k].spec_id() == c && -tolerance <= slot_end(cols[k]) - x <= tolerance)
    &&& (r matches Some(ResizeTarget::RowEdge(rr)) ==> in_row_strip && exists|k: int|
        0 <= k < rows.len() && #[trigger] rows[k].spec_id() == rr && -tolerance <= slot_end(rows[k]) - y <= tolerance)
    &&& (!in_col_strip && !in_row_strip ==> r is None)
}

/// The resize grab answers by strip: see [`resize_law`].
pub proof fn lemma_resize_handle(frame: Chrome, x: int, y: int, tolerance: int)
    ensures
        resize_law(frame, x, y, tolerance, frame.spec_resize_handle_at(x, y, tolerance)),
{
    let rows = frame.pane_set.rows.frozen@ + frame.pane_set.rows.scroll@;
    let cols = frame.pane_set.cols.frozen@ + frame.pane_set.cols.scroll@;
    lemma_boundary_walk(rows, y, tolerance, 0);
    lemma_boundary_walk(cols, x, tolerance, 0);
}

} // verus!
