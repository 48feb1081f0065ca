//! Classification of a frame's captured inputs against the committed frame:
//! a stable reuse, a safe scroll, or a full rebuild (and why).

use vstd::prelude::*;

use crate::geometry::pixel_rect::PixelRect;
use crate::geometry::prim::Axis;

verus! {

/// Outcome of classifying a paint attempt's inputs against the previously
/// committed frame.
#[derive(Clone, Copy, Debug, PartialEq, Eq, Structural)]
pub enum FrameDelta {
    Stable,
    Scroll(BlitPlan),
    Rebuild(RebuildReason),
}

/// Why [`FrameDelta::Rebuild`] fired, named per hard-break check so a
/// rebuilt frame's diagnostics can say which committed field diverged.
#[derive(Clone, Copy, Debug, PartialEq, Eq, Structural)]
pub enum RebuildReason {
    NoCommittedFrame,
    Size,
    Dpr,
    Theme,
    Model,
    Sheet,
    Freeze,
    Headers,
    TwoAxisScroll,
    MissingActiveSnapshot,
    ActiveCellChangedOrUnknown,
    IncompatibleScrollOverlap,
}

/// The single pixel shift performed by a scroll blit.
#[derive(Clone, Copy, Debug, PartialEq, Eq, Structural)]
pub struct Shift {
    pub src: PixelRect,
    pub dst: PixelRect,
}

/// 1D pixel range along a single axis (origin + size), used to thread
/// main-axis and cross-axis extents through axis-agnostic code.
#[derive(Clone, Copy, Debug, PartialEq, Eq, Structural)]
pub struct AxisRange {
    pub origin: i32,
    pub size: i32,
}

/// Pure canvas-pixel description of a scroll blit: `shift` is the one
/// cell-area rectangle the painter copies; `pixel_strip` the band the
/// renderer paints over to fill in newly revealed content; `axis` tells
/// which header strip to repaint. All rects are in CSS pixels.
#[derive(Clone, Copy, Debug, PartialEq, Eq, Structural)]
pub struct BlitPlan {
    pub axis: Axis,
    pub shift: Shift,
    pub pixel_strip: PixelRect,
}

} // verus!
