//! Cell-space addresses and areas.
//!
//! `RCRange`, `DenseRange`, `CellCoord`, `SheetArea`, `FormulaRef`,
//! `FormulaRefKind`, and `AutofillTarget`.

use vstd::prelude::*;

verus! {

/// Smaller of two integers.
pub open spec fn imin(a: int, b: int) -> int {
    if a <= b { a } else { b }
}

/// Larger of two integers.
pub open spec fn imax(a: int, b: int) -> int {
    if a >= b { a } else { b }
}

/// Absolute value of an integer.
pub open spec fn iabs(a: int) -> int {
    if a < 0 { -a } else { a }
}

/// `v` clamped into the `i32` range, which is what the saturating
/// arithmetic of `i32` produces.
pub open spec fn clamp_i32(v: int) -> int {
    if v < i32::MIN { i32::MIN as int } else if v > i32::MAX { i32::MAX as int } else { v }
}

/// Inclusive rectangular range of cells. The two corners may be in either
/// order: the geometry accessors (`height`/`width`/`contains`/`cells`)
/// normalize internally, so they are correct regardless of corner order.
/// Call [`RCRange::normalized`] only when you need the raw fields ordered
/// (`r1 <= r2`, `c1 <= c2`).
#[derive(Copy, Clone, Default, Debug, PartialEq, Eq, Structural)]
pub struct RCRange {
    pub r1: i32,
    pub c1: i32,
    pub r2: i32,
    pub c2: i32,
}

impl RCRange {
    /// Lowest row of the range, whichever corner holds it.
    pub open spec fn lo_row(self) -> int {
        imin(self.r1 as int, self.r2 as int)
    }

    /// Highest row of the range.
    pub open spec fn hi_row(self) -> int {
        imax(self.r1 as int, self.r2 as int)
    }

    /// Lowest column of the range.
    pub open spec fn lo_col(self) -> int {
        imin(self.c1 as int, self.c2 as int)
    }

    /// Highest column of the range.
    pub open spec fn hi_col(self) -> int {
        imax(self.c1 as int, self.c2 as int)
    }

    /// Number of rows the range covers.
    pub open spec fn row_count(self) -> int {
        self.hi_row() - self.lo_row() + 1
    }

    /// Number of columns the range covers.
    pub open spec fn col_count(self) -> int {
        self.hi_col() - self.lo_col() + 1
    }

    /// Whether the cell `(row, col)` lies in the range.
    pub open spec fn covers(self, row: int, col: int) -> bool {
        self.lo_row() <= row <= self.hi_row() && self.lo_col() <= col <= self.hi_col()
    }

    /// The cells of the range in row-major order, over its normalized corners.
    pub open spec fn cell_seq(self) -> Seq<(i32, i32)> {
        Seq::new(
            (self.row_count() * self.col_count()) as nat,
            |k: int| (
                (self.lo_row() + k / self.col_count()) as i32,
                (self.lo_col() + k % self.col_count()) as i32,
            ),
        )
    }

    /// Rows of the range, as the raw `r1..=r2` corner walk.
    pub fn rows(self) -> (r: std::ops::RangeInclusive<i32>)
        ensures
            r@.start == self.r1,
            r@.end == self.r2,
            !r@.exhausted,
    {
        std::ops::RangeInclusive::new(self.r1, self.r2)
    }

    /// Columns of the range, as the raw `c1..=c2` corner walk.
    pub fn columns(self) -> (r: std::ops::RangeInclusive<i32>)
        ensures
            r@.start == self.c1,
            r@.end == self.c2,
            !r@.exhausted,
    {
        std::ops::RangeInclusive::new(self.c1, self.c2)
    }

    /// Row count, independent of corner order.
    pub fn height(self) -> (h: i32)
        requires
            iabs(self.r2 - self.r1) < i32::MAX,
        ensures
            h == self.row_count(),
            h == iabs(self.r2 - self.r1) + 1,
    {
        let d = self.r2 as i64 - self.r1 as i64;
        let a = if d < 0 { -d } else { d };
        (a + 1) as i32
    }

    /// Column count, independent of corner order.
    pub fn width(self) -> (w: i32)
        requires
            iabs(self.c2 - self.c1) < i32::MAX,
        ensures
            w == self.col_count(),
            w == iabs(self.c2 - self.c1) + 1,
    {
        let d = self.c2 as i64 - self.c1 as i64;
        let a = if d < 0 { -d } else { d };
        (a + 1) as i32
    }

    /// Swap corners so `r1 <= r2` and `c1 <= c2`.
    pub fn normalized(self) -> (n: Self)
        ensures
            n.r1 == self.lo_row(),
            n.c1 == self.lo_col(),
            n.r2 == self.hi_row(),
            n.c2 == self.hi_col(),
    {
        Self {
            r1: if self.r1 <= self.r2 { self.r1 } else { self.r2 },
            c1: if self.c1 <= self.c2 { self.c1 } else { self.c2 },
            r2: if self.r1 >= self.r2 { self.r1 } else { self.r2 },
            c2: if self.c1 >= self.c2 { self.c1 } else { self.c2 },
        }
    }

    /// Grow every address edge by `amount` without imposing worksheet bounds.
    /// The corners are normalized first; each edge saturates at the `i32`
    /// bounds.
    pub fn grow_by(self, amount: i32) -> (g: Self)
        requires
            amount >= 0,
        ensures
            g.r1 == clamp_i32(self.lo_row() - amount),
            g.c1 == clamp_i32(self.lo_col() - amount),
            g.r2 == clamp_i32(self.hi_row() + amount),
            g.c2 == clamp_i32(self.hi_col() + amount),
    {
        let n = self.normalized();
        Self {
            r1: saturating_sub_i32(n.r1, amount),
            c1: saturating_sub_i32(n.c1, amount),
            r2: saturating_add_i32(n.r2, amount),
            c2: saturating_add_i32(n.c2, amount),
        }
    }

    /// True when both corners identify the same cell: `r1 == r2` and
    /// `c1 == c2`. Swapping the corners does not change the result.
    pub fn is_single_cell(self) -> (b: bool)
        ensures
            b == (self.r1 == self.r2 && self.c1 == self.c2),
    {
        self.r1 == self.r2 && self.c1 == self.c2
    }

    /// Whether `(row, col)` lies inside the range, whichever corner order
    /// it was given in.
    pub fn contains(self, row: i32, col: i32) -> (b: bool)
        ensures
            b == self.covers(row as int, col as int),
    {
        let n = self.normalized();
        n.r1 <= row && row <= n.r2 && n.c1 <= col && col <= n.c2
    }

    /// All `(row, col)` pairs of the range, row-major over its normalized
    /// corners.
    pub fn cells(self) -> (v: Vec<(i32, i32)>)
        requires
            self.row_count() * self.col_count() <= usize::MAX,
        ensures
            v@ == self.cell_seq(),
    {
        let n = self.normalized();
        let h: i64 = n.r2 as i64 - n.r1 as i64 + 1;
        let w: i64 = n.c2 as i64 - n.c1 as i64 + 1;
        let ghost wi = self.col_count();
        let ghost hi = self.row_count();
        let mut v: Vec<(i32, i32)> = Vec::new();
        let mut i: i64 = 0;
        while i < h
            invariant
                n.r1 == self.lo_row(),
                n.r2 == self.hi_row(),
                n.c1 == self.lo_col(),
                n.c2 == self.hi_col(),
                w == wi,
                h == hi,
                h == n.r2 - n.r1 + 1,
                w == n.c2 - n.c1 + 1,
                wi >= 1,
                hi >= 1,
                0 <= i <= h,
                v@.len() == i * wi,
                forall|k: int| 0 <= k < v@.len() ==> #[trigger] v@[k] == self.cell_seq()[k],
            decreases h - i,
        {
            let mut j: i64 = 0;
            let ghost row_base = i * wi;
            while j < w
                invariant
                    n.r1 == self.lo_row(),
                    n.r2 == self.hi_row(),
                    n.c1 == self.lo_col(),
                    n.c2 == self.hi_col(),
                    w == wi,
                    h == hi,
                    h == n.r2 - n.r1 + 1,
                    w == n.c2 - n.c1 + 1,
                    wi >= 1,
                    hi >= 1,
                    0 <= i < h,
                    0 <= j <= w,
                    row_base == i * wi,
                    v@.len() == row_base + j,
                    forall|k: int| 0 <= k < v@.len() ==> #[trigger] v@[k] == self.cell_seq()[k],
                decreases w - j,
            {
                proof {
                    lemma_row_major_index(i as int, j as int, wi, hi);
                }
                v.push(((n.r1 as i64 + i) as i32, (n.c1 as i64 + j) as i32));
                j = j + 1;
            }
            proof {
                assert((i + 1) * wi == row_base + wi) by (nonlinear_arith)
                    requires row_base == i * wi;
            }
            i = i + 1;
        }
        proof {
            assert(v@ =~= self.cell_seq());
        }
        v
    }

    /// The single-cell range at `(row, col)`.
    pub fn from_cell(row: i32, col: i32) -> (r: Self)
        ensures
            r == (RCRange { r1: row, c1: col, r2: row, c2: col }),
    {
        Self { r1: row, c1: col, r2: row, c2: col }
    }

    /// This range qualified with `sheet`.
    pub fn with_sheet(self, sheet: u32) -> (a: SheetArea)
        ensures
            a == (SheetArea { sheet, range: self }),
    {
        SheetArea { sheet, range: self }
    }
}

/// `a - b` saturating at the `i32` bounds.
pub fn saturating_sub_i32(a: i32, b: i32) -> (r: i32)
    ensures
        r == clamp_i32(a - b),
{
    let v = a as i64 - b as i64;
    if v < i32::MIN as i64 {
        i32::MIN
    } else if v > i32::MAX as i64 {
        i32::MAX
    } else {
        v as i32
    }
}

/// `a + b` saturating at the `i32` bounds.
pub fn saturating_add_i32(a: i32, b: i32) -> (r: i32)
    ensures
        r == clamp_i32(a + b),
{
    let v = a as i64 + b as i64;
    if v < i32::MIN as i64 {
        i32::MIN
    } else if v > i32::MAX as i64 {
        i32::MAX
    } else {
        v as i32
    }
}

/// Row-major flattening: index `i * w + j` of a `w`-wide grid sits at row
/// `i`, column `j`.
pub proof fn lemma_row_major_index(i: int, j: int, w: int, h: int)
    requires
        0 <= i < h,
        0 <= j < w,
    ensures
        (i * w + j) / w == i,
        (i * w + j) % w == j,
        i * w + j < h * w,
{
    vstd::arithmetic::div_mod::lemma_fundamental_div_mod_converse(i * w + j, w, i, j);
    assert(i * w + j < h * w) by (nonlinear_arith)
        requires 0 <= i < h, 0 <= j < w;
}

impl From<[i32; 4]> for RCRange {
    fn from(range: [i32; 4]) -> (r: Self) {
        Self { r1: range[0], c1: range[1], r2: range[2], c2: range[3] }
    }
}

impl vstd::std_specs::convert::FromSpecImpl<[i32; 4]> for RCRange {
    open spec fn obeys_from_spec() -> bool {
        true
    }

    open spec fn from_spec(range: [i32; 4]) -> Self {
        RCRange { r1: range@[0], c1: range@[1], r2: range@[2], c2: range@[3] }
    }
}

/// An ordered, dense address rectangle: `r1 <= r2` and `c1 <= c2`.
///
/// [`RCRange`] permits either corner order on purpose. Dense work (a bulk
/// fetch that iterates `r1..=r2` and multiplies height by width) needs the
/// ordered form, so this type *parses* the permissive range once at the
/// dense boundary ([`DenseRange::from_rc`]). Downstream code reads ordered
/// fields and needs no `max`/`min` repair.
#[derive(Copy, Clone, Debug, PartialEq, Eq)]
pub struct DenseRange {
    r1: i32,
    c1: i32,
    r2: i32,
    c2: i32,
}

impl DenseRange {
    /// The ordered corners, as a permissive range.
    pub closed spec fn spec_rc(self) -> RCRange {
        RCRange { r1: self.r1, c1: self.c1, r2: self.r2, c2: self.c2 }
    }

    /// The dense rectangle parsed from `range`.
    pub closed spec fn of_rc(range: RCRange) -> Self {
        DenseRange {
            r1: range.lo_row() as i32,
            c1: range.lo_col() as i32,
            r2: range.hi_row() as i32,
            c2: range.hi_col() as i32,
        }
    }

    /// The dense invariant: corners are ordered.
    #[verifier::type_invariant]
    pub closed spec fn ordered(self) -> bool {
        self.r1 <= self.r2 && self.c1 <= self.c2
    }

    /// Normalize `range`'s corners into the dense invariant. This is the one
    /// place a dual-direction [`RCRange`] becomes an ordered rectangle.
    pub fn from_rc(range: RCRange) -> (d: Self)
        ensures
            d == Self::of_rc(range),
            d.ordered(),
            d.spec_rc().r1 == range.lo_row(),
            d.spec_rc().c1 == range.lo_col(),
            d.spec_rc().r2 == range.hi_row(),
            d.spec_rc().c2 == range.hi_col(),
    {
        let n = range.normalized();
        Self { r1: n.r1, c1: n.c1, r2: n.r2, c2: n.c2 }
    }

    /// Row count, or `usize::MAX` when it does not fit a `usize`. Computed in
    /// `i64` so a full `i32` address span cannot overflow.
    pub fn height(self) -> (h: usize)
        ensures
            h == saturate_usize(self.spec_rc().r2 - self.spec_rc().r1 + 1),
    {
        proof {
            use_type_invariant(&self);
        }
        span_len(self.r1, self.r2)
    }

    /// Column count; same saturation as [`Self::height`].
    pub fn width(self) -> (w: usize)
        ensures
            w == saturate_usize(self.spec_rc().c2 - self.spec_rc().c1 + 1),
    {
        proof {
            use_type_invariant(&self);
        }
        span_len(self.c1, self.c2)
    }

    /// Addressed cell count: height times width, saturating at
    /// `usize::MAX`.
    pub fn addressed_cells(self) -> (n: usize)
        ensures
            n == saturate_usize(
                saturate_usize(self.spec_rc().r2 - self.spec_rc().r1 + 1)
                    * saturate_usize(self.spec_rc().c2 - self.spec_rc().c1 + 1),
            ),
    {
        let h = self.height();
        let w = self.width();
        if w != 0 && h > usize::MAX / w {
            proof {
                lemma_mul_exceeds(h as int, w as int, usize::MAX as int);
            }
            usize::MAX
        } else {
            proof {
                if w != 0 {
                    lemma_mul_within(h as int, w as int, usize::MAX as int);
                }
            }
            h * w
        }
    }

    /// Back to the permissive address type.
    pub fn as_rc(self) -> (r: RCRange)
        ensures
            r == self.spec_rc(),
    {
        RCRange { r1: self.r1, c1: self.c1, r2: self.r2, c2: self.c2 }
    }
}

/// `v` when it fits a `usize`, else `usize::MAX`.
pub open spec fn saturate_usize(v: int) -> int {
    if v > usize::MAX { usize::MAX as int } else { v }
}

proof fn lemma_mul_exceeds(h: int, w: int, m: int)
    requires
        w > 0,
        h > m / w,
        m >= 0,
    ensures
        h * w > m,
{
    vstd::arithmetic::div_mod::lemma_fundamental_div_mod(m, w);
    assert(h * w >= (m / w + 1) * w) by (nonlinear_arith)
        requires h >= m / w + 1, w > 0;
    assert((m / w + 1) * w == (m / w) * w + w) by (nonlinear_arith);
}

proof fn lemma_mul_within(h: int, w: int, m: int)
    requires
        w > 0,
        0 <= h <= m / w,
        m >= 0,
    ensures
        h * w <= m,
{
    vstd::arithmetic::div_mod::lemma_fundamental_div_mod(m, w);
    assert(h * w <= (m / w) * w) by (nonlinear_arith)
        requires 0 <= h <= m / w, w > 0;
}

/// Length of the inclusive span `lo..=hi`, or
/// `usize::MAX` when it does not fit.
fn span_len(lo: i32, hi: i32) -> (n: usize)
    requires
        lo <= hi,
    ensures
        n == saturate_usize(hi - lo + 1),
{
    let v: i64 = hi as i64 - lo as i64 + 1;
    if (v as u64) <= (usize::MAX as u64) {
        v as usize
    } else {
        usize::MAX
    }
}

impl From<RCRange> for DenseRange {
    fn from(range: RCRange) -> (d: Self) {
        Self::from_rc(range)
    }
}

impl vstd::std_specs::convert::FromSpecImpl<RCRange> for DenseRange {
    open spec fn obeys_from_spec() -> bool {
        true
    }

    open spec fn from_spec(range: RCRange) -> Self {
        DenseRange::of_rc(range)
    }
}

/// Target cell of an in-progress autofill-handle drag.
#[derive(Copy, Clone, Debug, PartialEq, Eq, Structural)]
pub struct AutofillTarget {
    pub row: i32,
    pub col: i32,
}

/// Sheet coordinates of one cell, 1-based on both axes.
#[derive(Copy, Clone, Debug, PartialEq, Eq, Structural)]
pub struct CellCoord {
    pub row: i32,
    pub col: i32,
}

/// An [`RCRange`] qualified with the sheet it lives on.
#[derive(Copy, Clone, Default, Debug, PartialEq, Eq, Structural)]
pub struct SheetArea {
    pub sheet: u32,
    pub range: RCRange,
}

/// Origin of a [`FormulaRef`]. `Direct` is the only draggable kind.
#[derive(Copy, Clone, Default, Debug, PartialEq, Eq, Structural)]
pub enum FormulaRefKind {
    /// `A1`, `Sheet2!B3:C5`: resolvable to coords; draggable in place.
    #[default]
    Direct,
    /// An identifier bound to a defined name. Not draggable.
    DefinedName,
    /// The formula did not parse; the ref came from a fallback span.
    /// Not draggable.
    Unresolved,
}

/// One cell or range reference parsed out of an in-edit formula. The
/// renderer outlines `sheet_area` with the color slot at
/// `color_idx % palette length`.
#[derive(Copy, Clone, Default, Debug, PartialEq, Eq, Structural)]
pub struct FormulaRef {
    pub sheet_area: SheetArea,
    pub color_idx: usize,
    pub kind: FormulaRefKind,
}

/// `r` with its corners swapped.
pub open spec fn swap_corners(r: RCRange) -> RCRange {
    RCRange { r1: r.r2, c1: r.c2, r2: r.r1, c2: r.c1 }
}

/// A range's geometry does not depend on its corner order: swapping the
/// corners, or normalizing them, keeps its bounds, extents, cells and
/// membership.
pub proof fn lemma_geometry_ignores_corner_order(r: RCRange)
    ensures
        swap_corners(r).lo_row() == r.lo_row() && swap_corners(r).hi_row() == r.hi_row(),
        swap_corners(r).lo_col() == r.lo_col() && swap_corners(r).hi_col() == r.hi_col(),
        swap_corners(r).row_count() == r.row_count(),
        swap_corners(r).col_count() == r.col_count(),
        swap_corners(r).cell_seq() == r.cell_seq(),
        forall|row: int, col: int| swap_corners(r).covers(row, col) == r.covers(row, col),
        ({
            let n = RCRange { r1: r.lo_row() as i32, c1: r.lo_col() as i32, r2: r.hi_row() as i32, c2: r.hi_col() as i32 };
            &&& n.cell_seq() == r.cell_seq()
            &&& forall|row: int, col: int| n.covers(row, col) == r.covers(row, col)
        }),
{
    let n = RCRange { r1: r.lo_row() as i32, c1: r.lo_col() as i32, r2: r.hi_row() as i32, c2: r.hi_col() as i32 };
    assert(swap_corners(r).cell_seq() =~= r.cell_seq());
    assert(n.cell_seq() =~= r.cell_seq());
}

} // verus!
