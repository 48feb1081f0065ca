//! Pure-axis machinery: the frozen/scroll slot bands of both axes and the
//! row-header width measurement that anchors the cell-area origin.

use vstd::prelude::*;

use crate::address::imax;
use crate::chrome::recycled_slots::RecycledSlots;
use crate::geometry::constants::HEADER_COL_WIDTH;
use crate::geometry::slot::{
    AxisSlot, AxisSlots, ColSlot, RowSlot, fill_outcome, spec_last_visible_id, spec_top_id,
};

verus! {

/// Approximate pixel width per digit at the bold header font; pessimistic
/// enough that no row label clips inside the strip.
pub const APPROX_DIGIT_WIDTH_PX: i32 = 8;

/// Padding either side of the row label inside the header strip.
pub const HEADER_LABEL_PAD_PX: i32 = 4;

/// Both axes' slot bands plus the resolved header labels.
#[derive(Debug, Clone)]
pub struct PaneSet {
    pub rows: AxisSlots<RowSlot>,
    pub cols: AxisSlots<ColSlot>,
    /// Resolved row-header labels, parallel to `rows.frozen ++ rows.scroll`.
    pub row_header_labels: Vec<String>,
    /// Resolved column-header labels, parallel to `cols.frozen ++ cols.scroll`.
    pub col_header_labels: Vec<String>,
}

/// One axis's scroll-slot Vec, tagged with the axis it belongs to. A
/// single-axis blit only ever rebuilds one of `rows.scroll`/`cols.scroll`.
pub enum ScrollAxisSlots {
    Row(Vec<RowSlot>),
    Column(Vec<ColSlot>),
}

impl PaneSet {
    /// Both axes are well-formed.
    pub open spec fn wf(&self) -> bool {
        self.rows.wf() && self.cols.wf()
    }

    /// Both axes support id lookups.
    pub open spec fn indexable(&self) -> bool {
        self.rows.indexable() && self.cols.indexable()
    }

    /// Fresh `PaneSet` reusing the previous frame's drained slot Vecs.
    /// Offsets and last ids start at zero; labels start empty.
    pub fn with_recycled(recycled: RecycledSlots) -> (p: Self)
        ensures
            p.rows.frozen == recycled.frozen_rows,
            p.rows.scroll == recycled.scroll_rows,
            p.cols.frozen == recycled.frozen_cols,
            p.cols.scroll == recycled.scroll_cols,
            p.rows.frozen@ == recycled.frozen_rows@,
            p.rows.scroll@ == recycled.scroll_rows@,
            p.cols.frozen@ == recycled.frozen_cols@,
            p.cols.scroll@ == recycled.scroll_cols@,
            p.rows.frozen_offset == 0 && p.rows.last_id == 0,
            p.cols.frozen_offset == 0 && p.cols.last_id == 0,
            p.row_header_labels@.len() == 0,
            p.col_header_labels@.len() == 0,
    {
        PaneSet {
            rows: AxisSlots {
                frozen: recycled.frozen_rows,
                scroll: recycled.scroll_rows,
                frozen_offset: 0,
                last_id: 0,
            },
            cols: AxisSlots {
                frozen: recycled.frozen_cols,
                scroll: recycled.scroll_cols,
                frozen_offset: 0,
                last_id: 0,
            },
            row_header_labels: Vec::new(),
            col_header_labels: Vec::new(),
        }
    }

    /// Reassemble with `scroll`'s axis swapped in alongside fresh header
    /// labels; the frozen bands, offsets, last ids, and the *other* axis's
    /// scroll Vec carry over unchanged, by move.
    pub fn swap_scroll_axis(
        self,
        scroll: ScrollAxisSlots,
        row_header_labels: Vec<String>,
        col_header_labels: Vec<String>,
    ) -> (p: PaneSet)
        ensures
            p.rows.frozen@ == self.rows.frozen@,
            p.cols.frozen@ == self.cols.frozen@,
            p.rows.frozen_offset == self.rows.frozen_offset,
            p.cols.frozen_offset == self.cols.frozen_offset,
            p.rows.last_id == self.rows.last_id,
            p.cols.last_id == self.cols.last_id,
            p.row_header_labels@ == row_header_labels@,
            p.col_header_labels@ == col_header_labels@,
            match scroll {
                ScrollAxisSlots::Row(v) => p.rows.scroll@ == v@ && p.cols.scroll@
                    == self.cols.scroll@,
                ScrollAxisSlots::Column(v) => p.cols.scroll@ == v@ && p.rows.scroll@
                    == self.rows.scroll@,
            },
    {
        let PaneSet { rows, cols, .. } = self;
        match scroll {
            ScrollAxisSlots::Row(scroll_rows) => PaneSet {
                rows: AxisSlots {
                    frozen: rows.frozen,
                    scroll: scroll_rows,
                    frozen_offset: rows.frozen_offset,
                    last_id: rows.last_id,
                },
                cols,
                row_header_labels,
                col_header_labels,
            },
            ScrollAxisSlots::Column(scroll_cols) => PaneSet {
                cols: AxisSlots {
                    frozen: cols.frozen,
                    scroll: scroll_cols,
                    frozen_offset: cols.frozen_offset,
                    last_id: cols.last_id,
                },
                rows,
                row_header_labels,
                col_header_labels,
            },
        }
    }

    pub fn top_row(&self) -> (r: i32)
        ensures
            r == spec_top_id(self.rows.scroll@),
    {
        self.rows.top()
    }

    pub fn left_column(&self) -> (r: i32)
        ensures
            r == spec_top_id(self.cols.scroll@),
    {
        self.cols.top()
    }

    pub fn last_visible_row(&self) -> (r: i32)
        ensures
            r == spec_last_visible_id(self.rows.scroll@),
    {
        self.rows.last_visible()
    }

    pub fn last_visible_col(&self) -> (r: i32)
        ensures
            r == spec_last_visible_id(self.cols.scroll@),
    {
        self.cols.last_visible()
    }

    pub fn row_in_frame(&self, row: i32) -> (b: bool)
        requires
            self.rows.indexable(),
        ensures
            b == self.rows.spec_slot(row as int) is Some,
    {
        self.rows.contains(row)
    }

    pub fn col_in_frame(&self, col: i32) -> (b: bool)
        requires
            self.cols.indexable(),
        ensures
            b == self.cols.spec_slot(col as int) is Some,
    {
        self.cols.contains(col)
    }

    pub fn row_extent_at(&self, row: i32) -> (r: i32)
        requires
            self.rows.indexable(),
        ensures
            r == match self.rows.spec_slot(row as int) {
                Some(s) => s.height,
                None => 0,
            },
    {
        self.rows.extent_at(row)
    }

    pub fn col_extent_at(&self, col: i32) -> (r: i32)
        requires
            self.cols.indexable(),
        ensures
            r == match self.cols.spec_slot(col as int) {
                Some(s) => s.width,
                None => 0,
            },
    {
        self.cols.extent_at(col)
    }

    pub fn row_to_y(&self, row: i32) -> (r: i32)
        requires
            self.rows.indexable(),
        ensures
            r == match self.rows.spec_slot(row as int) {
                Some(s) => s.top,
                None => 0,
            },
    {
        self.rows.to_pixel(row)
    }

    pub fn col_to_x(&self, col: i32) -> (r: i32)
        requires
            self.cols.indexable(),
        ensures
            r == match self.cols.spec_slot(col as int) {
                Some(s) => s.left,
                None => 0,
            },
    {
        self.cols.to_pixel(col)
    }
}

/// Number of decimal digits of a positive integer.
pub open spec fn decimal_digits(n: int) -> int
    decreases n,
{
    if n < 10 { 1 } else { 1 + decimal_digits(n / 10) }
}

/// Decimal digit count, clamped to `>= 1` so a zero or negative input
/// still reserves a slot.
pub fn digit_count(n: i32) -> (d: i32)
    ensures
        d == decimal_digits(imax(n as int, 1)),
        1 <= d <= 10,
{
    let mut m: i32 = if n >= 1 { n } else { 1 };
    let ghost m0 = m as int;
    let mut d: i32 = 0;
    proof {
        lemma_decimal_digits_bound(m0);
    }
    while m > 0
        invariant
            m0 == imax(n as int, 1),
            0 <= m,
            m > 0 ==> d + decimal_digits(m as int) == decimal_digits(m0),
            m == 0 ==> d == decimal_digits(m0),
            decimal_digits(m0) <= 10,
            0 <= d <= 10,
        decreases m,
    {
        proof {
            lemma_decimal_digits_bound(m as int);
        }
        d = d + 1;
        m = m / 10;
    }
    d
}

/// A positive `i32` has at most ten decimal digits.
pub proof fn lemma_decimal_digits_bound(n: int)
    requires
        1 <= n <= i32::MAX,
    ensures
        1 <= decimal_digits(n) <= 10,
        n < 10 ==> decimal_digits(n) == 1,
    decreases n,
{
    if n >= 10 {
        lemma_decimal_digits_bound(n / 10);
        if n / 10 >= 10 {
            lemma_digits_shrink(n);
        }
    }
}

/// Every number has at least one decimal digit.
pub proof fn lemma_decimal_digits_positive(n: int)
    ensures
        decimal_digits(n) >= 1,
    decreases n,
{
    if n >= 10 {
        lemma_decimal_digits_positive(n / 10);
    }
}

/// A larger positive number never has fewer decimal digits.
pub proof fn lemma_decimal_digits_monotone(a: int, b: int)
    requires
        1 <= a <= b,
    ensures
        decimal_digits(a) <= decimal_digits(b),
    decreases b,
{
    if b >= 10 {
        if a < 10 {
            lemma_decimal_digits_positive(b);
        } else {
            lemma_decimal_digits_monotone(a / 10, b / 10);
        }
    }
}

/// A label with more digits never needs a narrower header.
pub proof fn lemma_header_width_monotone(d1: int, d2: int)
    requires
        d1 <= d2,
    ensures
        header_width_for_digits(d1) <= header_width_for_digits(d2),
{
}

/// Digits of `n` are bounded by how many times ten divides into it.
proof fn lemma_digits_shrink(n: int)
    requires
        10 <= n <= i32::MAX,
    ensures
        decimal_digits(n) <= 10,
    decreases n,
{
    reveal_with_fuel(decimal_digits, 11);
}

/// Pixel width of the row-header strip implied by `digits` label digits.
pub open spec fn header_width_for_digits(digits: int) -> int {
    imax(digits * APPROX_DIGIT_WIDTH_PX + 2 * HEADER_LABEL_PAD_PX, HEADER_COL_WIDTH as int)
}

/// Pixel width the row-header strip needs to fit the widest visible row
/// label, by a pessimistic per-digit approximation, floored at
/// [`HEADER_COL_WIDTH`] so short labels never shrink the strip.
pub fn measure_row_header_width(max_visible_row: i32) -> (w: i32)
    ensures
        w == header_width_for_digits(decimal_digits(imax(max_visible_row as int, 1))),
{
    let digits = digit_count(max_visible_row);
    let approx = digits * APPROX_DIGIT_WIDTH_PX + 2 * HEADER_LABEL_PAD_PX;
    if approx >= HEADER_COL_WIDTH {
        approx
    } else {
        HEADER_COL_WIDTH
    }
}

/// `labels` holds, for each slot of `slots` in order, a label `label`
/// gives for the slot's id.
pub open spec fn labels_of<S: AxisSlot, L: Fn(i32) -> String>(label: L, slots: Seq<S>, labels: Seq<String>) -> bool {
    &&& labels.len() == slots.len()
    &&& forall|i: int| 0 <= i < slots.len() ==> call_ensures(label, (#[trigger] slots[i].spec_id(),), labels[i])
}

/// One label per slot of `frozen ++ scroll`, in that order.
fn resolve_labels<S: AxisSlot, L: Fn(i32) -> String>(frozen: &[S], scroll: &[S], label: &L) -> (v: Vec<String>)
    requires
        forall|id: i32| label.requires((id,)),
    ensures
        labels_of(*label, frozen@ + scroll@, v@),
{
    let ghost all = frozen@ + scroll@;
    let mut out: Vec<String> = Vec::new();
    let mut i: usize = 0;
    while i < frozen.len()
        invariant
            forall|id: i32| label.requires((id,)),
            all == frozen@ + scroll@,
            0 <= i <= frozen@.len(),
            labels_of(*label, all.take(i as int), out@),
        decreases frozen.len() - i,
    {
        let text = label(frozen[i].id());
        let ghost before = out@;
        out.push(text);
        proof {
            assert(all.take(i + 1) =~= all.take(i as int).push(all[i as int]));
            assert forall|k: int| 0 <= k < i + 1 implies call_ensures(
                *label,
                (#[trigger] all.take(i + 1)[k].spec_id(),),
                out@[k],
            ) by {
                if k < i {
                    assert(all.take(i + 1)[k] == all.take(i as int)[k]);
                }
            }
        }
        i = i + 1;
    }
    let mut j: usize = 0;
    while j < scroll.len()
        invariant
            forall|id: i32| label.requires((id,)),
            all == frozen@ + scroll@,
            0 <= j <= scroll@.len(),
            labels_of(*label, all.take(frozen@.len() + j as int), out@),
        decreases scroll.len() - j,
    {
        let text = label(scroll[j].id());
        out.push(text);
        proof {
            let n = frozen@.len() + j;
            assert(all.take(n + 1) =~= all.take(n).push(all[n]));
            assert(all[n] == scroll@[j as int]);
            assert forall|k: int| 0 <= k < n + 1 implies call_ensures(
                *label,
                (#[trigger] all.take(n + 1)[k].spec_id(),),
                out@[k],
            ) by {
                if k < n {
                    assert(all.take(n + 1)[k] == all.take(n)[k]);
                }
            }
        }
        j = j + 1;
    }
    proof {
        assert(all.take((frozen@.len() + scroll@.len()) as int) =~= all);
    }
    out
}

impl PaneSet {
    /// Row-header labels for `frozen ++ scroll`, in that order: `label`
    /// gives each row's text (the model's override, else the row number).
    pub fn resolve_row_labels<L: Fn(i32) -> String>(frozen: &[RowSlot], scroll: &[RowSlot], label: &L) -> (v: Vec<
        String,
    >)
        requires
            forall|id: i32| label.requires((id,)),
        ensures
            labels_of(*label, frozen@ + scroll@, v@),
    {
        resolve_labels(frozen, scroll, label)
    }

    /// Column mirror of [`PaneSet::resolve_row_labels`] (the override, else
    /// the spreadsheet column name).
    pub fn resolve_col_labels<L: Fn(i32) -> String>(frozen: &[ColSlot], scroll: &[ColSlot], label: &L) -> (v: Vec<
        String,
    >)
        requires
            forall|id: i32| label.requires((id,)),
        ensures
            labels_of(*label, frozen@ + scroll@, v@),
    {
        resolve_labels(frozen, scroll, label)
    }

    /// Populate the row bands via [`AxisSlots::fill`]; `max_cursor` is the
    /// canvas height and `measure` reports row heights.
    pub fn fill_rows<F: Fn(i32) -> Option<i32>>(
        &mut self,
        frozen_count: i32,
        origin_y: i32,
        view_top_row: i32,
        last_row: i32,
        max_cursor: i32,
        measure: F,
    ) -> (b: bool)
        requires
            forall|id: i32| measure.requires((id,)),
            frozen_count < i32::MAX,
        ensures
            fill_outcome(measure, old(self).rows, final(self).rows, frozen_count, origin_y, view_top_row, last_row, max_cursor, b),
            final(self).cols == old(self).cols,
            final(self).row_header_labels == old(self).row_header_labels,
            final(self).col_header_labels == old(self).col_header_labels,
    {
        self.rows.fill(frozen_count, origin_y, view_top_row, last_row, max_cursor, measure)
    }

    /// Column mirror of [`PaneSet::fill_rows`]; `max_cursor` is the canvas
    /// width and `measure` reports column widths.
    pub fn fill_cols<F: Fn(i32) -> Option<i32>>(
        &mut self,
        frozen_count: i32,
        origin_x: i32,
        view_left_column: i32,
        last_column: i32,
        max_cursor: i32,
        measure: F,
    ) -> (b: bool)
        requires
            forall|id: i32| measure.requires((id,)),
            frozen_count < i32::MAX,
        ensures
            fill_outcome(measure, old(self).cols, final(self).cols, frozen_count, origin_x, view_left_column, last_column, max_cursor, b),
            final(self).rows == old(self).rows,
            final(self).row_header_labels == old(self).row_header_labels,
            final(self).col_header_labels == old(self).col_header_labels,
    {
        self.cols.fill(frozen_count, origin_x, view_left_column, last_column, max_cursor, measure)
    }
}

} // verus!
