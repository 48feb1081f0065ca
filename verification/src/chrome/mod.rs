//! Per-frame snapshot of painted chrome geometry. The renderer and every
//! query read the same `Chrome`, so painted pixels and hit zones cannot
//! disagree.
//!
//! Pure-axis walks live on [`PaneSet`]; `Chrome` composes them whenever a
//! query spans both axes.

pub mod blit;
pub mod construct;
pub mod classify;
pub mod mask;
pub mod pane_region;
pub mod pane_set;
pub mod query;
pub mod recycled_slots;
pub mod reuse;

pub use mask::PaneRegionMask;
pub use pane_region::{GridLayout, GridSegment, GridShape, PaneRegion};
pub use pane_set::{PaneSet, ScrollAxisSlots, measure_row_header_width};
pub use recycled_slots::RecycledSlots;

use vstd::prelude::*;

use crate::geometry::prim::Point;

verus! {

/// Which constructor produced a frame.
#[derive(Debug, Clone, Copy, PartialEq, Eq, Structural)]
pub enum FrameKindTag {
    /// Every band walked from the model.
    Fresh,
    /// The previous frame's slot bands kept verbatim, the per-attempt
    /// scalars refreshed.
    SlotsReused,
    /// A single-axis scroll blit reused the kept band in place.
    Blitted,
}

impl FrameKindTag {
    /// Whether the frame's slot bands were inherited from the frame before.
    pub fn reuses_slots(&self) -> (b: bool)
        ensures
            b == !(*self is Fresh),
    {
        match self {
            FrameKindTag::Fresh => false,
            FrameKindTag::SlotsReused => true,
            FrameKindTag::Blitted => true,
        }
    }
}

/// Geometry of one painted frame.
#[derive(Debug, Clone)]
pub struct Chrome {
    pub sheet: u32,
    pub pane_set: PaneSet,
    /// Measured per frame from the widest visible row label.
    pub row_header_thickness: i32,
    pub col_header_thickness: i32,
    /// Top-left of the cell area; single source of truth for hit-test and
    /// viewport math.
    pub cell_origin: Point,
    /// Logical canvas width at build time, in whole CSS pixels.
    pub logical_width: i32,
    /// Logical canvas height at build time, in whole CSS pixels.
    pub logical_height: i32,
    /// Model generation at capture time, so a model replacement is detected
    /// without comparing model identities.
    pub model_generation: u64,
    /// Row/column header visibility captured with this frame.
    pub show_row_headers: bool,
    pub show_col_headers: bool,
    /// Which constructor produced this frame.
    pub kind: FrameKindTag,
}

impl Chrome {
    /// A painted frame: both axes well-formed, every slot at a non-negative
    /// position with a non-negative extent, and a non-negative canvas.
    pub open spec fn wf(&self) -> bool {
        &&& self.pane_set.wf()
        &&& self.pane_set.rows.nonneg()
        &&& self.pane_set.cols.nonneg()
        &&& self.logical_width >= 0
        &&& self.logical_height >= 0
        &&& self.pane_set.rows.frozen_offset >= 0
        &&& self.pane_set.cols.frozen_offset >= 0
        &&& self.cell_origin.x >= 0
        &&& self.cell_origin.y >= 0
    }

    /// Logical canvas size `(width, height)`, in whole pixels, this frame was
    /// built with.
    pub fn canvas_size(&self) -> (r: (i32, i32))
        ensures
            r == (self.logical_width, self.logical_height),
    {
        (self.logical_width, self.logical_height)
    }

    /// Piecewise address layout for the visible grid.
    pub fn grid_layout(&self) -> (l: GridLayout)
        ensures
            l == GridLayout::spec_from_frame(self),
            crate::chrome::pane_region::layout_describes(l, self),
    {
        GridLayout::from_frame(self)
    }
}

} // verus!
