//! Points, axis-aligned lines and the row/column axis.

use vstd::prelude::*;

use crate::address::RCRange;
use crate::geometry::pixel_rect::PixelRect;

verus! {

/// A point in logical (CSS) pixels on the canvas.
#[derive(Debug, Clone, Copy, PartialEq, Eq, Default, Structural)]
pub struct Point {
    pub x: i32,
    pub y: i32,
}

/// Endpoints of an axis-aligned line. The line covers `from` through `to`;
/// `to - from` is its pixel length.
#[derive(Debug, Clone, Copy, PartialEq, Eq, Structural)]
pub struct Span {
    pub from: i32,
    pub to: i32,
}

/// An axis-aligned line segment on the canvas. Named fields per variant so
/// callers can't transpose the scalars.
#[derive(Debug, Clone, Copy, PartialEq, Eq, Structural)]
pub enum Line {
    H { span: Span, y: i32 },
    V { x: i32, span: Span },
}

impl Line {
    /// Move the line by `d` perpendicular to its direction.
    pub fn offset_cross(self, d: i32) -> (l: Self)
        requires
            match self {
                Line::H { span, y } => i32::MIN <= y + d <= i32::MAX,
                Line::V { x, span } => i32::MIN <= x + d <= i32::MAX,
            },
        ensures
            l == match self {
                Line::H { span, y } => Line::H { span, y: (y + d) as i32 },
                Line::V { x, span } => Line::V { x: (x + d) as i32, span },
            },
    {
        match self {
            Line::H { span, y } => Line::H { span, y: y + d },
            Line::V { span, x } => Line::V { span, x: x + d },
        }
    }

    /// Grow the segment by `d` pixels at each end, along its own direction.
    pub fn extend(self, d: i32) -> (l: Self)
        requires
            match self {
                Line::H { span, y } => span_extends(span, d),
                Line::V { x, span } => span_extends(span, d),
            },
        ensures
            l == match self {
                Line::H { span, y } => Line::H { span: extended(span, d), y },
                Line::V { x, span } => Line::V { x, span: extended(span, d) },
            },
    {
        match self {
            Line::H { span, y } => Line::H {
                span: Span { from: span.from - d, to: span.to + d },
                y,
            },
            Line::V { span, x } => Line::V {
                x,
                span: Span { from: span.from - d, to: span.to + d },
            },
        }
    }
}

/// Whether `span` grown by `d` at each end stays within `i32`.
pub open spec fn span_extends(span: Span, d: i32) -> bool {
    i32::MIN <= span.from - d <= i32::MAX && i32::MIN <= span.to + d <= i32::MAX
}

/// `span` grown by `d` at each end.
pub open spec fn extended(span: Span, d: i32) -> Span {
    Span { from: (span.from - d) as i32, to: (span.to + d) as i32 }
}

/// Horizontal vs vertical axis. Carries no payload: the row/column index
/// travels as a separate parameter.
#[derive(Copy, Clone, Debug, PartialEq, Eq, Structural)]
pub enum Axis {
    Row,
    Column,
}

impl Axis {
    /// Rect that pins a header cell to the corresponding header strip.
    ///
    /// `along` is the position along the axis (top y for rows, left x for
    /// columns), `parallel_size` the cell's extent along the axis, and
    /// `header_thickness` the perpendicular size of the header strip.
    pub fn header_rect(self, along: i32, parallel_size: i32, header_thickness: i32) -> (r:
        PixelRect)
        ensures
            r == match self {
                Axis::Row => PixelRect {
                    top_left: Point { x: 0, y: along },
                    width: header_thickness,
                    height: parallel_size,
                },
                Axis::Column => PixelRect {
                    top_left: Point { x: along, y: 0 },
                    width: parallel_size,
                    height: header_thickness,
                },
            },
    {
        match self {
            Axis::Row => PixelRect {
                top_left: Point { x: 0, y: along },
                width: header_thickness,
                height: parallel_size,
            },
            Axis::Column => PixelRect {
                top_left: Point { x: along, y: 0 },
                width: parallel_size,
                height: header_thickness,
            },
        }
    }

    /// Inclusive `(start, end)` of the user's selection along this axis.
    pub fn selection_range(self, view_range: RCRange) -> (r: (i32, i32))
        ensures
            r == match self {
                Axis::Row => (view_range.lo_row() as i32, view_range.hi_row() as i32),
                Axis::Column => (view_range.lo_col() as i32, view_range.hi_col() as i32),
            },
    {
        let norm = view_range.normalized();
        match self {
            Axis::Row => (norm.r1, norm.r2),
            Axis::Column => (norm.c1, norm.c2),
        }
    }
}

/// Which edge of a cell rectangle is being stroked.
#[derive(Copy, Clone, Debug, PartialEq, Eq, Structural)]
pub enum BorderEdge {
    Left,
    Top,
    Right,
    Bottom,
}

impl BorderEdge {
    /// The axis-aligned line this edge strokes on `rect`.
    pub fn line(self, rect: PixelRect) -> (l: Line)
        requires
            rect.edges_fit(),
        ensures
            l == match self {
                BorderEdge::Left => Line::V {
                    x: rect.top_left.x,
                    span: Span { from: rect.top_left.y, to: rect.spec_bottom() as i32 },
                },
                BorderEdge::Top => Line::H {
                    span: Span { from: rect.top_left.x, to: rect.spec_right() as i32 },
                    y: rect.top_left.y,
                },
                BorderEdge::Right => Line::V {
                    x: rect.spec_right() as i32,
                    span: Span { from: rect.top_left.y, to: rect.spec_bottom() as i32 },
                },
                BorderEdge::Bottom => Line::H {
                    span: Span { from: rect.top_left.x, to: rect.spec_right() as i32 },
                    y: rect.spec_bottom() as i32,
                },
            },
    {
        let PixelRect { top_left: Point { x, y }, width, height } = rect;
        match self {
            BorderEdge::Left => Line::V { x, span: Span { from: y, to: y + height } },
            BorderEdge::Top => Line::H { span: Span { from: x, to: x + width }, y },
            BorderEdge::Right => Line::V { x: x + width, span: Span { from: y, to: y + height } },
            BorderEdge::Bottom => Line::H { span: Span { from: x, to: x + width }, y: y + height },
        }
    }
}

} // verus!
