//! The four frozen-pane quadrants and the per-frame address layout.

use vstd::prelude::*;

use crate::address::RCRange;
use crate::chrome::Chrome;
use crate::geometry::slot::{AxisSlot, ColSlot, RowSlot};

verus! {

/// One of the four frozen-pane quadrants.
#[derive(Clone, Copy, PartialEq, Eq, Debug, Structural)]
pub enum PaneRegion {
    TopLeft,
    TopRight,
    BottomLeft,
    BottomRight,
}

/// Canonical TL, TR, BL, BR position of `region`.
pub open spec fn spec_region_index(region: PaneRegion) -> usize {
    match region {
        PaneRegion::TopLeft => 0,
        PaneRegion::TopRight => 1,
        PaneRegion::BottomLeft => 2,
        PaneRegion::BottomRight => 3,
    }
}

impl PaneRegion {
    /// Stable index for arrays stored in TL, TR, BL, BR order.
    pub fn index(self) -> (i: usize)
        ensures
            i == spec_region_index(self),
    {
        match self {
            PaneRegion::TopLeft => 0,
            PaneRegion::TopRight => 1,
            PaneRegion::BottomLeft => 2,
            PaneRegion::BottomRight => 3,
        }
    }

    /// Whether the quadrant lies in the frozen row band.
    pub open spec fn frozen_rows(self) -> bool {
        self == PaneRegion::TopLeft || self == PaneRegion::TopRight
    }

    /// Whether the quadrant lies in the frozen column band.
    pub open spec fn frozen_cols(self) -> bool {
        self == PaneRegion::TopLeft || self == PaneRegion::BottomLeft
    }
}

impl PaneRegion {
    /// Row slots of this quadrant in `frame`.
    pub open spec fn spec_rows(self, frame: &Chrome) -> Seq<RowSlot> {
        if self.frozen_rows() { frame.pane_set.rows.frozen@ } else { frame.pane_set.rows.scroll@ }
    }

    /// Column slots of this quadrant in `frame`.
    pub open spec fn spec_cols(self, frame: &Chrome) -> Seq<ColSlot> {
        if self.frozen_cols() { frame.pane_set.cols.frozen@ } else { frame.pane_set.cols.scroll@ }
    }

    /// Address rectangle this quadrant covers in `frame`.
    pub open spec fn spec_range(self, frame: &Chrome) -> Option<RCRange> {
        let rows = self.spec_rows(frame);
        let cols = self.spec_cols(frame);
        if rows.len() == 0 || cols.len() == 0 {
            None
        } else {
            Some(
                RCRange {
                    r1: rows[0].row,
                    c1: cols[0].col,
                    r2: rows.last().row,
                    c2: cols.last().col,
                },
            )
        }
    }

    /// The frame's row-slot band this quadrant walks: frozen rows for the
    /// top quadrants, scrolling rows for the bottom ones.
    pub fn rows(self, frame: &Chrome) -> (r: &[RowSlot])
        ensures
            r@ == self.spec_rows(frame),
    {
        match self {
            PaneRegion::TopLeft | PaneRegion::TopRight => frame.pane_set.rows.frozen.as_slice(),
            PaneRegion::BottomLeft | PaneRegion::BottomRight => frame.pane_set.rows.scroll.as_slice(),
        }
    }

    /// The frame's column-slot band this quadrant walks: frozen columns
    /// for the left quadrants, scrolling columns for the right ones.
    pub fn cols(self, frame: &Chrome) -> (r: &[ColSlot])
        ensures
            r@ == self.spec_cols(frame),
    {
        match self {
            PaneRegion::TopLeft | PaneRegion::BottomLeft => frame.pane_set.cols.frozen.as_slice(),
            PaneRegion::TopRight | PaneRegion::BottomRight => frame.pane_set.cols.scroll.as_slice(),
        }
    }

    /// Address-space rectangle this pane covers: first to last row id by
    /// first to last column id of its slot bands. `None` when the pane has
    /// no rows or no columns. Hidden rows/columns keep their (zero-extent)
    /// slots, so the rectangle is contiguous.
    pub fn range(self, frame: &Chrome) -> (r: Option<RCRange>)
        ensures
            r == self.spec_range(frame),
    {
        let rows = self.rows(frame);
        let cols = self.cols(frame);
        if rows.len() == 0 || cols.len() == 0 {
            return None;
        }
        Some(RCRange {
            r1: rows[0].id(),
            c1: cols[0].id(),
            r2: rows[rows.len() - 1].id(),
            c2: cols[cols.len() - 1].id(),
        })
    }
}

/// Structural grid geometry: the frozen/scroll band lengths per axis,
/// `[frozen, scroll]`. The frozen counts are exactly the first elements.
#[derive(Clone, Copy, Debug, Eq, PartialEq)]
pub struct GridShape {
    row_lens: [usize; 2],
    col_lens: [usize; 2],
}

impl GridShape {
    /// Row band lengths `[frozen, scroll]`.
    pub closed spec fn spec_row_lens(self) -> [usize; 2] {
        self.row_lens
    }

    /// Column band lengths `[frozen, scroll]`.
    pub closed spec fn spec_col_lens(self) -> [usize; 2] {
        self.col_lens
    }

    /// Build a shape from the frozen/scroll axis lengths, `[frozen, scroll]`
    /// per axis.
    pub fn from_lens(row_lens: [usize; 2], col_lens: [usize; 2]) -> (s: Self)
        ensures
            s.spec_row_lens() == row_lens,
            s.spec_col_lens() == col_lens,
    {
        Self { row_lens, col_lens }
    }

    pub fn row_lens(self) -> (r: [usize; 2])
        ensures
            r == self.spec_row_lens(),
    {
        self.row_lens
    }

    pub fn col_lens(self) -> (r: [usize; 2])
        ensures
            r == self.spec_col_lens(),
    {
        self.col_lens
    }

    /// Frozen row count (the first row length, as `i32`).
    pub fn frozen_rows(self) -> (n: i32)
        ensures
            n == self.spec_row_lens()@[0] as i32,
    {
        self.row_lens[0] as i32
    }

    /// Frozen column count (the first column length, as `i32`).
    pub fn frozen_cols(self) -> (n: i32)
        ensures
            n == self.spec_col_lens()@[0] as i32,
    {
        self.col_lens[0] as i32
    }
}

/// One dense address rectangle in the piecewise visible grid.
#[derive(Clone, Copy, Debug, Eq, PartialEq, Structural)]
pub struct GridSegment {
    region: PaneRegion,
    range: RCRange,
}

impl GridSegment {
    /// The quadrant this segment covers.
    pub closed spec fn spec_region(self) -> PaneRegion {
        self.region
    }

    /// The segment's address rectangle.
    pub closed spec fn spec_range(self) -> RCRange {
        self.range
    }

    /// The segment for `region` in `frame`, if that quadrant is non-empty.
    pub closed spec fn of_region(region: PaneRegion, frame: &Chrome) -> Option<GridSegment> {
        match region.spec_range(frame) {
            Some(range) => Some(GridSegment { region, range }),
            None => None,
        }
    }

    pub fn region(self) -> (r: PaneRegion)
        ensures
            r == self.spec_region(),
    {
        self.region
    }

    pub fn range(self) -> (r: RCRange)
        ensures
            r == self.spec_range(),
    {
        self.range
    }
}

/// Exact address layout for one frame, stored in TL, TR, BL, BR order.
#[derive(Clone, Copy, Debug, Eq, PartialEq)]
pub struct GridLayout {
    shape: GridShape,
    segments: [Option<GridSegment>; 4],
}

impl GridLayout {
    /// The shape part of the layout.
    pub closed spec fn spec_shape(self) -> GridShape {
        self.shape
    }

    /// The segment slots, in TL, TR, BL, BR order.
    pub closed spec fn spec_segments(self) -> Seq<Option<GridSegment>> {
        self.segments@
    }

    /// The layout of `frame`: band lengths, and each quadrant's segment.
    pub closed spec fn spec_from_frame(frame: &Chrome) -> GridLayout {
        GridLayout {
            shape: GridShape {
                row_lens: [
                    frame.pane_set.rows.frozen@.len() as usize,
                    frame.pane_set.rows.scroll@.len() as usize,
                ],
                col_lens: [
                    frame.pane_set.cols.frozen@.len() as usize,
                    frame.pane_set.cols.scroll@.len() as usize,
                ],
            },
            segments: [
                GridSegment::of_region(PaneRegion::TopLeft, frame),
                GridSegment::of_region(PaneRegion::TopRight, frame),
                GridSegment::of_region(PaneRegion::BottomLeft, frame),
                GridSegment::of_region(PaneRegion::BottomRight, frame),
            ],
        }
    }

    /// Build the layout of `frame`.
    pub fn from_frame(frame: &Chrome) -> (l: Self)
        ensures
            l == Self::spec_from_frame(frame),
            layout_describes(l, frame),
    {
        let rows = &frame.pane_set.rows;
        let cols = &frame.pane_set.cols;
        let shape = GridShape {
            row_lens: [rows.frozen.len(), rows.scroll.len()],
            col_lens: [cols.frozen.len(), cols.scroll.len()],
        };
        let tl = Self::segment_of(PaneRegion::TopLeft, frame);
        let tr = Self::segment_of(PaneRegion::TopRight, frame);
        let bl = Self::segment_of(PaneRegion::BottomLeft, frame);
        let br = Self::segment_of(PaneRegion::BottomRight, frame);
        let l = Self { shape, segments: [tl, tr, bl, br] };
        l
    }

    fn segment_of(region: PaneRegion, frame: &Chrome) -> (s: Option<GridSegment>)
        ensures
            s == GridSegment::of_region(region, frame),
    {
        match region.range(frame) {
            Some(range) => Some(GridSegment { region, range }),
            None => None,
        }
    }

    pub fn shape(self) -> (s: GridShape)
        ensures
            s == self.spec_shape(),
    {
        self.shape
    }

    /// The non-empty segments, in render (TL, TR, BL, BR) order.
    pub fn segments(&self) -> (v: Vec<GridSegment>)
        ensures
            v@ == present_segments(self.spec_segments()),
    {
        let mut v: Vec<GridSegment> = Vec::new();
        let mut i: usize = 0;
        while i < 4
            invariant
                0 <= i <= 4,
                self.segments@.len() == 4,
                v@ == present_segments(self.spec_segments().take(i as int)),
            decreases 4 - i,
        {
            proof {
                assert(self.spec_segments().take(i as int + 1).drop_last() =~= self.spec_segments().take(i as int));
            }
            match self.segments[i] {
                Some(seg) => v.push(seg),
                None => {},
            }
            i = i + 1;
        }
        proof {
            assert(self.spec_segments().take(4) =~= self.spec_segments());
        }
        v
    }

    /// The segment for `region`, by its canonical TL/TR/BL/BR position.
    pub fn segment(self, region: PaneRegion) -> (s: Option<GridSegment>)
        ensures
            s == self.spec_segments()[spec_region_index(region) as int],
    {
        self.segments[region.index()]
    }
}

/// `s` is the segment of `region` in `frame`: present, with that region
/// and its address range, exactly when the quadrant is non-empty.
pub open spec fn segment_describes(s: Option<GridSegment>, region: PaneRegion, frame: &Chrome) -> bool {
    match region.spec_range(frame) {
        Some(r) => s matches Some(g) && g.spec_region() == region && g.spec_range() == r,
        None => s is None,
    }
}

/// `l` is the layout of `frame`: its band lengths are `[frozen, scroll]`
/// per axis, and its four segment slots hold, in TL, TR, BL, BR order,
/// each quadrant's segment.
pub open spec fn layout_describes(l: GridLayout, frame: &Chrome) -> bool {
    &&& l.spec_shape().spec_row_lens()@[0] == frame.pane_set.rows.frozen@.len()
    &&& l.spec_shape().spec_row_lens()@[1] == frame.pane_set.rows.scroll@.len()
    &&& l.spec_shape().spec_col_lens()@[0] == frame.pane_set.cols.frozen@.len()
    &&& l.spec_shape().spec_col_lens()@[1] == frame.pane_set.cols.scroll@.len()
    &&& l.spec_segments().len() == 4
    &&& segment_describes(l.spec_segments()[0], PaneRegion::TopLeft, frame)
    &&& segment_describes(l.spec_segments()[1], PaneRegion::TopRight, frame)
    &&& segment_describes(l.spec_segments()[2], PaneRegion::BottomLeft, frame)
    &&& segment_describes(l.spec_segments()[3], PaneRegion::BottomRight, frame)
}

/// The `Some` entries of `s`, in order.
pub open spec fn present_segments(s: Seq<Option<GridSegment>>) -> Seq<GridSegment>
    decreases s.len(),
{
    if s.len() == 0 {
        Seq::empty()
    } else {
        let rest = present_segments(s.drop_last());
        match s.last() {
            Some(seg) => rest.push(seg),
            None => rest,
        }
    }
}

} // verus!
