//! The read-only worksheet surface the renderer consumes, as plain values:
//! the selected view, and the three outcomes of a single model read.

use vstd::prelude::*;

use crate::address::RCRange;

verus! {

/// The model's selected view: the sheet, the active cell, the selection,
/// and the viewport's first visible row and column.
#[derive(Debug, Clone, Copy, PartialEq, Eq, Structural)]
pub struct CanvasView {
    pub sheet: u32,
    pub row: i32,
    pub column: i32,
    pub selection: RCRange,
    pub top_row: i32,
    pub left_column: i32,
}

/// Outcome of one model read: a value, a legitimately empty cell, or a
/// transient bridge failure. `Absent` and `BridgeFailed` are kept apart so
/// a failed read is never mistaken for an empty cell.
#[derive(Debug, Clone, PartialEq, Eq)]
pub enum Fetched<T> {
    Value(T),
    Absent,
    BridgeFailed,
}

impl<T> Fetched<T> {
    /// Whether the read failed transiently.
    pub fn is_bridge_failed(&self) -> (b: bool)
        ensures
            b == (*self is BridgeFailed),
    {
        match self {
            Fetched::BridgeFailed => true,
            _ => false,
        }
    }

    /// The value, if one was read.
    pub fn value(self) -> (r: Option<T>)
        ensures
            r == match self {
                Fetched::Value(v) => Some(v),
                _ => None::<T>,
            },
    {
        match self {
            Fetched::Value(v) => Some(v),
            _ => None,
        }
    }
}

/// Position of cell `(r, c)` in a dense row-major read of `range`.
pub open spec fn bulk_slot(range: RCRange, r: i32, c: i32) -> int {
    (r - range.r1) * (range.c2 - range.c1 + 1) + (c - range.c1)
}

/// Number of cells a dense read of `range` holds: none when either span is
/// inverted.
pub open spec fn bulk_len(range: RCRange) -> int {
    if range.r1 <= range.r2 && range.c1 <= range.c2 {
        (range.r2 - range.r1 + 1) * (range.c2 - range.c1 + 1)
    } else {
        0
    }
}

/// `out` is a dense, row-major read of `range`: one slot per cell, the slot
/// of `(r, c)` holding what `read` gave for that cell.
pub open spec fn bulk_reads<T, F: Fn(i32, i32) -> Fetched<T>>(read: F, range: RCRange, out: Seq<Fetched<T>>) -> bool {
    &&& out.len() == bulk_len(range)
    &&& forall|r: i32, c: i32|
        range.r1 <= r <= range.r2 && range.c1 <= c <= range.c2 ==> call_ensures(
            read,
            (r, c),
            out[#[trigger] bulk_slot(range, r, c)],
        )
}

proof fn lemma_row_before(a: int, b: int, cols: int, x: int)
    by (nonlinear_arith)
    requires
        0 <= a < b,
        0 <= x < cols,
    ensures
        a * cols + x < b * cols,
        0 <= a * cols + x,
{
}

proof fn lemma_next_row(a: int, cols: int)
    by (nonlinear_arith)
    ensures
        a * cols + cols == (a + 1) * cols,
{
}

/// Read every cell of `range` with `read`, dense and row-major
/// (`out[(row - r1) * cols + (col - c1)]`), forwarding each read's outcome
/// verbatim: a failed read stays a failed slot and never collapses into an
/// empty one. `out` is cleared first.
pub fn fetch_range<T, F: Fn(i32, i32) -> Fetched<T>>(range: RCRange, read: F, out: &mut Vec<Fetched<T>>)
    requires
        forall|r: i32, c: i32| read.requires((r, c)),
    ensures
        bulk_reads(read, range, final(out)@),
{
    out.clear();
    if range.r1 > range.r2 || range.c1 > range.c2 {
        return;
    }
    let ghost cols: int = range.c2 - range.c1 + 1;
    let mut r: i64 = range.r1 as i64;
    while r <= range.r2 as i64
        invariant
            forall|rr: i32, cc: i32| read.requires((rr, cc)),
            range.r1 <= range.r2,
            range.c1 <= range.c2,
            cols == range.c2 - range.c1 + 1,
            range.r1 <= r <= range.r2 + 1,
            out@.len() == (r - range.r1) * cols,
            forall|rr: i32, cc: i32|
                range.r1 <= rr < r && range.c1 <= cc <= range.c2 ==> call_ensures(
                    read,
                    (rr, cc),
                    out@[#[trigger] bulk_slot(range, rr, cc)],
                ),
        decreases range.r2 - r + 1,
    {
        let row = r as i32;
        let mut c: i64 = range.c1 as i64;
        while c <= range.c2 as i64
            invariant
                forall|rr: i32, cc: i32| read.requires((rr, cc)),
                range.r1 <= row <= range.r2,
                row == r,
                range.c1 <= range.c2,
                cols == range.c2 - range.c1 + 1,
                range.c1 <= c <= range.c2 + 1,
                out@.len() == (r - range.r1) * cols + (c - range.c1),
                forall|rr: i32, cc: i32|
                    (range.r1 <= rr < r && range.c1 <= cc <= range.c2) || (rr == r && range.c1 <= cc < c)
                        ==> call_ensures(read, (rr, cc), out@[#[trigger] bulk_slot(range, rr, cc)]),
            decreases range.c2 - c + 1,
        {
            let col = c as i32;
            let v = read(row, col);
            let ghost before = out@;
            out.push(v);
            proof {
                assert forall|rr: i32, cc: i32|
                    (range.r1 <= rr < r && range.c1 <= cc <= range.c2) || (rr == r && range.c1 <= cc < c + 1)
                        implies call_ensures(read, (rr, cc), out@[#[trigger] bulk_slot(range, rr, cc)]) by {
                    if rr < r {
                        lemma_row_before(rr - range.r1, r - range.r1, cols, cc - range.c1);
                        assert(out@[bulk_slot(range, rr, cc)] == before[bulk_slot(range, rr, cc)]);
                    } else if cc < c {
                        assert(out@[bulk_slot(range, rr, cc)] == before[bulk_slot(range, rr, cc)]);
                    } else {
                        assert(bulk_slot(range, rr, cc) == before.len());
                    }
                }
            }
            c = c + 1;
        }
        proof {
            lemma_next_row(r - range.r1, cols);
        }
        r = r + 1;
    }
    proof {
        assert(out@.len() == bulk_len(range));
    }
}

} // verus!
