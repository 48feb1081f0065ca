//! One paint attempt, start to finish: queued intent, the classification
//! delta, the plan, and the report.

pub mod delta;
pub mod flags;
pub mod inputs;
pub mod laws;
pub mod plan;
pub mod report;
pub mod work;

pub use delta::{AxisRange, BlitPlan, FrameDelta, RebuildReason, Shift};
pub use flags::WorkFlags;
pub use inputs::{FrameInputFailure, FrozenCount};
pub use plan::{FramePlan, GridWork, OverlayWork, RenderStrategy, plan_frame};
pub use report::{BlitFallback, FrameOutcome, FrameTrace, GridVerdict, PaintResult};
pub use work::{ContentWork, PendingWork, RowSpan};
