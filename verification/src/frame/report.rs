//! The frame report: what one paint attempt did.

use vstd::prelude::*;

use crate::frame::flags::WorkFlags;
use crate::frame::inputs::FrameInputFailure;
use crate::frame::plan::RenderStrategy;

verus! {

/// The result of one paint call. `RetryRequired` means the scheduler must
/// keep the loop active.
#[derive(Clone, Copy, PartialEq, Eq, Debug, Structural)]
pub enum PaintResult {
    Idle,
    Rendered,
    RetryRequired,
}

/// What the grid paint decided this frame.
#[derive(Debug, Clone, Copy, PartialEq, Eq, Structural)]
pub enum GridVerdict {
    Skip,
    Cell,
    Range,
    Rows { spans: u8, rows: u16 },
    Full,
    Strip,
    /// Grid-wide preflight held the prior buffers and pixels.
    Held,
}

/// Whole-frame outcome. Any bridge failure holds the grid transaction
/// before a single pixel moves.
#[derive(Debug, Clone, Copy, Default, PartialEq, Eq, Structural)]
pub enum FrameOutcome {
    #[default]
    Painted,
    HeldOnBridgeFailure,
    /// Input capture failed before dispatch reached a strategy at all: no
    /// candidate geometry, no cache invalidation, no paint.
    HeldOnInputFailure(FrameInputFailure),
}

/// A blit whose committed cache could not be shifted, so preparation fell
/// back to a full-grid replacement; `cold_cache` tells a cold cache from an
/// incompatible layout.
#[derive(Debug, Clone, Copy, PartialEq, Eq, Structural)]
pub struct BlitFallback {
    pub cold_cache: bool,
}

/// Per-frame attribution: which strategy ran, what the grid decided, and
/// how much model traffic it cost.
#[derive(Debug, Clone, Copy, Default, PartialEq, Eq, Structural)]
pub struct FrameTrace {
    /// Wrapping identifier of each non-idle paint attempt.
    pub attempt_seq: u64,
    /// Identifier of the transaction committed by this attempt; holds leave
    /// it unset.
    pub committed_seq: Option<u64>,
    /// `None` before the first dispatch and on a capture hold.
    pub strategy: Option<RenderStrategy>,
    /// The strategy that painted pixels; differs from `strategy` only when a
    /// scroll blit fell back to a fresh rebuild. `None` when no paint
    /// completed.
    pub effective: Option<RenderStrategy>,
    /// Which work categories the planner acted on.
    pub work: WorkFlags,
    /// `None` when the grid was not visited this frame.
    pub verdict: Option<GridVerdict>,
    pub outcome: FrameOutcome,
    pub blit_fallback: Option<BlitFallback>,
    /// Cell slots handed to the model, summed over the bundle channels.
    pub fetched_cell_slots: usize,
    /// Distinct addressed cells charged by the bundle fetches.
    pub fetched_cells: usize,
    /// Number of bundle fetches represented by this trace.
    pub fetch_batches: usize,
}

} // verus!
