//! Axis-aligned rectangles in logical (CSS) pixels.

use vstd::prelude::*;

use crate::address::{imax, imin};
use crate::geometry::prim::Point;

verus! {

/// Whether an integer fits in `i32`.
pub open spec fn fits_i32(v: int) -> bool {
    i32::MIN <= v <= i32::MAX
}

/// Rust's truncating division by two (rounds toward zero).
pub open spec fn half_toward_zero(v: int) -> int {
    if v >= 0 { v / 2 } else { -((-v) / 2) }
}

/// A rectangle in logical (CSS) pixels on the canvas.
#[derive(Debug, Clone, Copy, PartialEq, Eq, Default, Structural)]
pub struct PixelRect {
    pub top_left: Point,
    pub width: i32,
    pub height: i32,
}

impl PixelRect {
    /// Right edge, `left + width`.
    pub open spec fn spec_right(self) -> int {
        self.top_left.x + self.width
    }

    /// Bottom edge, `top + height`.
    pub open spec fn spec_bottom(self) -> int {
        self.top_left.y + self.height
    }

    /// The right and bottom edges are representable as `i32`.
    pub open spec fn edges_fit(self) -> bool {
        fits_i32(self.spec_right()) && fits_i32(self.spec_bottom())
    }

    /// The rectangle with the given edges.
    pub open spec fn from_edges(left: int, top: int, right: int, bottom: int) -> PixelRect {
        PixelRect {
            top_left: Point { x: left as i32, y: top as i32 },
            width: (right - left) as i32,
            height: (bottom - top) as i32,
        }
    }

    /// Left edge of the overlap of `self` and `other`.
    pub open spec fn meet_left(self, other: Self) -> int {
        imax(self.top_left.x as int, other.top_left.x as int)
    }

    /// Top edge of the overlap of `self` and `other`.
    pub open spec fn meet_top(self, other: Self) -> int {
        imax(self.top_left.y as int, other.top_left.y as int)
    }

    /// Right edge of the overlap of `self` and `other`.
    pub open spec fn meet_right(self, other: Self) -> int {
        imin(self.spec_right(), other.spec_right())
    }

    /// Bottom edge of the overlap of `self` and `other`.
    pub open spec fn meet_bottom(self, other: Self) -> int {
        imin(self.spec_bottom(), other.spec_bottom())
    }

    pub fn left(&self) -> (l: i32)
        ensures
            l == self.top_left.x,
    {
        self.top_left.x
    }

    pub fn top(&self) -> (t: i32)
        ensures
            t == self.top_left.y,
    {
        self.top_left.y
    }

    pub fn right(&self) -> (r: i32)
        requires
            fits_i32(self.spec_right()),
        ensures
            r == self.spec_right(),
    {
        self.top_left.x + self.width
    }

    pub fn bottom(&self) -> (b: i32)
        requires
            fits_i32(self.spec_bottom()),
        ensures
            b == self.spec_bottom(),
    {
        self.top_left.y + self.height
    }

    /// The positive-area overlap of two rectangles; `None` when they only
    /// touch along an edge or are disjoint.
    pub fn intersection(self, other: Self) -> (r: Option<Self>)
        requires
            self.edges_fit(),
            other.edges_fit(),
            fits_i32(self.meet_right(other) - self.meet_left(other)),
            fits_i32(self.meet_bottom(other) - self.meet_top(other)),
        ensures
            r == if self.meet_left(other) < self.meet_right(other) && self.meet_top(other)
                < self.meet_bottom(other) {
                Some(
                    PixelRect::from_edges(
                        self.meet_left(other),
                        self.meet_top(other),
                        self.meet_right(other),
                        self.meet_bottom(other),
                    ),
                )
            } else {
                None
            },
    {
        let left = if self.left() >= other.left() { self.left() } else { other.left() };
        let top = if self.top() >= other.top() { self.top() } else { other.top() };
        let right = if self.right() <= other.right() { self.right() } else { other.right() };
        let bottom = if self.bottom() <= other.bottom() { self.bottom() } else { other.bottom() };
        let candidate = Self {
            top_left: Point { x: left, y: top },
            width: right - left,
            height: bottom - top,
        };
        if left < right && top < bottom {
            Some(candidate)
        } else {
            None
        }
    }

    /// Smallest rectangle containing both inputs.
    pub fn bounding_union(self, other: Self) -> (r: Self)
        requires
            self.edges_fit(),
            other.edges_fit(),
            fits_i32(
                imax(self.spec_right(), other.spec_right()) - imin(
                    self.top_left.x as int,
                    other.top_left.x as int,
                ),
            ),
            fits_i32(
                imax(self.spec_bottom(), other.spec_bottom()) - imin(
                    self.top_left.y as int,
                    other.top_left.y as int,
                ),
            ),
        ensures
            r == PixelRect::from_edges(
                imin(self.top_left.x as int, other.top_left.x as int),
                imin(self.top_left.y as int, other.top_left.y as int),
                imax(self.spec_right(), other.spec_right()),
                imax(self.spec_bottom(), other.spec_bottom()),
            ),
    {
        let left = if self.left() <= other.left() { self.left() } else { other.left() };
        let top = if self.top() <= other.top() { self.top() } else { other.top() };
        let right = if self.right() >= other.right() { self.right() } else { other.right() };
        let bottom = if self.bottom() >= other.bottom() { self.bottom() } else { other.bottom() };
        Self { top_left: Point { x: left, y: top }, width: right - left, height: bottom - top }
    }

    /// Center point, each half-extent rounded toward zero.
    pub fn center(&self) -> (c: Point)
        requires
            fits_i32(self.top_left.x + half_toward_zero(self.width as int)),
            fits_i32(self.top_left.y + half_toward_zero(self.height as int)),
        ensures
            c.x == self.top_left.x + half_toward_zero(self.width as int),
            c.y == self.top_left.y + half_toward_zero(self.height as int),
    {
        Point {
            x: self.left() + halve(self.width),
            y: self.top() + halve(self.height),
        }
    }

    /// Shrink by `dx` / `dy` on each side (negative values grow the rect).
    pub fn inset(&self, dx: i32, dy: i32) -> (r: Self)
        requires
            fits_i32(self.top_left.x + dx),
            fits_i32(self.top_left.y + dy),
            fits_i32(2 * dx),
            fits_i32(2 * dy),
            fits_i32(self.width - 2 * dx),
            fits_i32(self.height - 2 * dy),
        ensures
            r.top_left.x == self.top_left.x + dx,
            r.top_left.y == self.top_left.y + dy,
            r.width == self.width - 2 * dx,
            r.height == self.height - 2 * dy,
    {
        Self {
            top_left: Point { x: self.left() + dx, y: self.top() + dy },
            width: self.width - 2 * dx,
            height: self.height - 2 * dy,
        }
    }

    /// Whether the rectangle overlaps at all the drawable area of a canvas
    /// `canvas_w` x `canvas_h` whole logical pixels in size, the area
    /// `[0, canvas_w) x [0, canvas_h)`. Cells that fall off the canvas, as
    /// when a frozen band is wider or taller than the canvas, answer `false`.
    pub fn intersects(&self, canvas_w: i32, canvas_h: i32) -> (b: bool)
        requires
            self.edges_fit(),
        ensures
            b == (self.top_left.x < canvas_w && self.spec_right() > 0
                && self.top_left.y < canvas_h && self.spec_bottom() > 0),
    {
        self.left() < canvas_w && self.right() > 0 && self.top() < canvas_h && self.bottom() > 0
    }

    /// The four corners in clockwise order from `top_left`: TL, TR, BR, BL.
    pub fn corners(&self) -> (c: [Point; 4])
        requires
            self.edges_fit(),
        ensures
            c@ == seq![
                self.top_left,
                Point { x: self.spec_right() as i32, y: self.top_left.y },
                Point { x: self.spec_right() as i32, y: self.spec_bottom() as i32 },
                Point { x: self.top_left.x, y: self.spec_bottom() as i32 },
            ],
    {
        let x = self.left();
        let y = self.top();
        let c = [
            Point { x, y },
            Point { x: x + self.width, y },
            Point { x: x + self.width, y: y + self.height },
            Point { x, y: y + self.height },
        ];
        proof {
            assert(c@ =~= seq![
                self.top_left,
                Point { x: self.spec_right() as i32, y: self.top_left.y },
                Point { x: self.spec_right() as i32, y: self.spec_bottom() as i32 },
                Point { x: self.top_left.x, y: self.spec_bottom() as i32 },
            ]);
        }
        c
    }
}

/// Half of `v`, rounded toward zero.
pub fn halve(v: i32) -> (h: i32)
    ensures
        h == half_toward_zero(v as int),
{
    let w = v as i64;
    if w >= 0 {
        (w / 2) as i32
    } else {
        (-((-w) / 2)) as i32
    }
}

/// The bounding union contains both rectangles: its edges lie at or
/// outside each input's edges.
pub proof fn lemma_bounding_union_contains(a: PixelRect, b: PixelRect)
    ensures
        ({
            let u = PixelRect::from_edges(
                imin(a.top_left.x as int, b.top_left.x as int),
                imin(a.top_left.y as int, b.top_left.y as int),
                imax(a.spec_right(), b.spec_right()),
                imax(a.spec_bottom(), b.spec_bottom()),
            );
            fits_i32(imax(a.spec_right(), b.spec_right()) - imin(a.top_left.x as int, b.top_left.x as int))
                && fits_i32(imax(a.spec_bottom(), b.spec_bottom()) - imin(a.top_left.y as int, b.top_left.y as int))
                ==> {
                &&& u.top_left.x <= a.top_left.x && u.top_left.x <= b.top_left.x
                &&& u.top_left.y <= a.top_left.y && u.top_left.y <= b.top_left.y
                &&& u.spec_right() >= a.spec_right() && u.spec_right() >= b.spec_right()
                &&& u.spec_bottom() >= a.spec_bottom() && u.spec_bottom() >= b.spec_bottom()
            }
        }),
{
}

/// The overlap lies inside both rectangles and is the same whichever
/// rectangle it is taken from.
pub proof fn lemma_overlap_inside_both(a: PixelRect, b: PixelRect)
    ensures
        a.meet_left(b) == b.meet_left(a) && a.meet_top(b) == b.meet_top(a),
        a.meet_right(b) == b.meet_right(a) && a.meet_bottom(b) == b.meet_bottom(a),
        a.meet_left(b) >= a.top_left.x && a.meet_left(b) >= b.top_left.x,
        a.meet_top(b) >= a.top_left.y && a.meet_top(b) >= b.top_left.y,
        a.meet_right(b) <= a.spec_right() && a.meet_right(b) <= b.spec_right(),
        a.meet_bottom(b) <= a.spec_bottom() && a.meet_bottom(b) <= b.spec_bottom(),
{
}

} // verus!
