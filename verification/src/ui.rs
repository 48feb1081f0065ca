//! Pointer-query results: what a canvas pixel hits, and which resize edge
//! it grabs.

use vstd::prelude::*;

verus! {

/// A side of a rectangle.
#[derive(Copy, Clone, Debug, PartialEq, Eq, Structural)]
pub enum Side {
    Top,
    Bottom,
    Left,
    Right,
}

/// A corner of a rectangle.
#[derive(Copy, Clone, Debug, PartialEq, Eq, Structural)]
pub enum RectCorner {
    TopLeft,
    TopRight,
    BottomLeft,
    BottomRight,
}

/// Where a pointer sits relative to a formula-reference rectangle.
#[derive(Copy, Clone, Debug, PartialEq, Eq, Structural)]
pub enum RefZone {
    /// Within the grab tolerance of two meeting edges.
    Corner(RectCorner),
    /// Within the grab tolerance of one edge.
    Edge(Side),
    /// Inside, away from every edge.
    Body,
}

/// What a canvas pixel hits.
#[derive(Copy, Clone, Debug, PartialEq, Eq, Structural)]
pub enum HitTest {
    /// Off the canvas, or over chrome that maps to no row or column.
    Outside,
    /// The corner box where the two header strips meet.
    Corner,
    /// A column-header label.
    ColumnHeader(i32),
    /// A row-header label.
    RowHeader(i32),
    /// A grid cell.
    Cell { row: i32, column: i32 },
    /// The selection's autofill handle, over the given cell.
    AutofillHandle { row: i32, column: i32 },
    /// A draggable formula reference; `grab_row`/`grab_column` is the cell
    /// under the pointer.
    FormulaRef { ref_idx: usize, zone: RefZone, grab_row: i32, grab_column: i32 },
}

/// The header edge a resize drag grabs: the trailing edge of a column or a
/// row.
#[derive(Copy, Clone, Debug, PartialEq, Eq, Structural)]
pub enum ResizeTarget {
    ColumnEdge(i32),
    RowEdge(i32),
}

} // verus!
