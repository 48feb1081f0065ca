//! Pure geometry, layout and frame-planning core of a canvas-rendered
//! spreadsheet grid.
//!
//! Cell-space addresses live in [`address`]; pixel primitives and the
//! per-axis slot machinery in [`geometry`].

pub mod address;
pub mod autofit;
pub mod chrome;
pub mod decoration;
pub mod diagnostics;
pub mod frame;

pub use address::{AutofillTarget, CellCoord, DenseRange, FormulaRef, FormulaRefKind, RCRange, SheetArea};
pub mod geometry;
pub mod labels;
pub mod model;
pub mod orchestrator;
pub mod painter;

pub use geometry::pixel_rect::PixelRect;
pub use geometry::prim::{Axis, BorderEdge, Line, Point, Span};
pub mod ui;

pub use model::{CanvasView, Fetched};
pub use ui::{HitTest, RectCorner, RefZone, ResizeTarget, Side};
