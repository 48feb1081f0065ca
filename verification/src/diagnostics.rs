//! Structured per-attempt diagnostics: what a paint attempt classified,
//! fetched, repainted, cached and blitted, as plain values.

use vstd::prelude::*;

use crate::address::RCRange;
use crate::chrome::pane_region::{GridLayout, PaneRegion};
use crate::frame::delta::FrameDelta;
use crate::frame::work::RowSpan;
use crate::frame::report::GridVerdict;
use crate::geometry::pixel_rect::PixelRect;
use crate::geometry::prim::Axis;

verus! {

/// Version of the diagnostics record layout.
pub const DIAG_SCHEMA_VERSION: u8 = 4;

/// The geometric classification of an attempt, without its payload.
#[derive(Clone, Copy, Debug, PartialEq, Eq, Structural)]
pub enum DiagDeltaKind {
    Stable,
    Scroll,
    Rebuild,
}

/// The kind of `delta`.
pub open spec fn delta_kind(delta: FrameDelta) -> DiagDeltaKind {
    match delta {
        FrameDelta::Stable => DiagDeltaKind::Stable,
        FrameDelta::Scroll(_) => DiagDeltaKind::Scroll,
        FrameDelta::Rebuild(_) => DiagDeltaKind::Rebuild,
    }
}

impl<'a> From<&'a FrameDelta> for DiagDeltaKind {
    /// The kind of a classification.
    fn from(delta: &'a FrameDelta) -> (k: Self) {
        match delta {
            FrameDelta::Stable => DiagDeltaKind::Stable,
            FrameDelta::Scroll(_) => DiagDeltaKind::Scroll,
            FrameDelta::Rebuild(_) => DiagDeltaKind::Rebuild,
        }
    }
}

impl<'a> vstd::std_specs::convert::FromSpecImpl<&'a FrameDelta> for DiagDeltaKind {
    open spec fn obeys_from_spec() -> bool {
        true
    }

    open spec fn from_spec(delta: &'a FrameDelta) -> Self {
        delta_kind(*delta)
    }
}

/// Why a region was fetched.
#[derive(Clone, Copy, Debug, PartialEq, Eq, Structural)]
pub enum DiagFetchPurpose {
    FullSegment,
    DamageStrip,
    BlitReveal,
}

/// Why the grid repainted what it did.
#[derive(Clone, Copy, Debug, PartialEq, Eq, Structural)]
pub enum DiagRepaintReason {
    NoPaintedHistory,
    LayoutMismatch,
    RowAddressMismatch,
    FingerprintsEqual,
    ChangedCell,
    ChangedCells,
    ChangedRows,
    ClipAlignment,
}

/// What the attempt planned for the pane buffers.
#[derive(Clone, Copy, Debug, PartialEq, Eq, Structural)]
pub enum DiagCacheActionTag {
    /// The buffers are left alone.
    NoAction,
    Replace,
    Splice,
    Shift,
    Reset,
}

/// What the attempt planned for the pane fingerprints.
#[derive(Clone, Copy, Debug, PartialEq, Eq, Structural)]
pub enum DiagFingerprintActionTag {
    Install,
    MarkStale,
    Reset,
}

/// Whether the committed pane buffers describe the painted pixels.
#[derive(Clone, Copy, Debug, Default, PartialEq, Eq, Structural)]
pub enum DiagBufferTruth {
    Valid,
    #[default]
    Stale,
}

/// Whether the committed fingerprints describe the painted pixels.
#[derive(Clone, Copy, Debug, Default, PartialEq, Eq, Structural)]
pub enum DiagFingerprintTruth {
    Exact,
    #[default]
    Stale,
}

/// Whether the attempt's cache transition was committed or held.
#[derive(Clone, Copy, Debug, PartialEq, Eq, Structural)]
pub enum DiagCacheResolution {
    Committed,
    HeldForRetry,
}

/// How a blit attempt ended.
#[derive(Clone, Copy, Debug, PartialEq, Eq, Structural)]
pub enum DiagBlitResultTag {
    Shifted,
    HeldPreflight,
    GridFallback,
    FreshFallback,
}

/// Which layers an attempt painted.
#[derive(Clone, Copy, Debug, Default, PartialEq, Eq, Structural)]
pub struct DiagPaintedLayers {
    pub grid: bool,
    pub overlay: bool,
}

/// One visible grid segment and its cell count.
#[derive(Clone, Copy, Debug, PartialEq, Eq, Structural)]
pub struct DiagSegment {
    pub region: PaneRegion,
    pub range: RCRange,
    pub cells: usize,
}

/// One bulk fetch.
#[derive(Clone, Copy, Debug, PartialEq, Eq, Structural)]
pub struct DiagFetchRequest {
    pub purpose: DiagFetchPurpose,
    pub region: Option<PaneRegion>,
    pub range: RCRange,
    pub cells: usize,
    pub slots: usize,
}

/// The attempt's bulk fetches.
#[derive(Clone, Debug, Default, PartialEq, Eq)]
pub struct DiagFetch {
    pub batches: usize,
    pub addressed_cells: usize,
    pub logical_slots: usize,
    pub requests: Vec<DiagFetchRequest>,
}

/// One changed cell.
#[derive(Clone, Copy, Debug, PartialEq, Eq, Structural)]
pub struct DiagChangedCell {
    pub row: i32,
    pub column: i32,
}

/// One source range a repaint read from.
#[derive(Clone, Copy, Debug, PartialEq, Eq, Structural)]
pub struct DiagSourceRange {
    pub region: PaneRegion,
    pub range: RCRange,
}

/// What the grid repainted and why.
#[derive(Clone, Debug, Default, PartialEq, Eq)]
pub struct DiagRepaint {
    pub verdict: Option<GridVerdict>,
    pub reason: Option<DiagRepaintReason>,
    pub changed_rows: Vec<RowSpan>,
    pub changed_cells: Vec<DiagChangedCell>,
    pub clip: Option<PixelRect>,
    pub source_ranges: Vec<DiagSourceRange>,
}

/// The committed cache's layout and truth.
#[derive(Clone, Debug, Default, PartialEq, Eq)]
pub struct DiagCacheTruth {
    pub layout: Option<GridLayout>,
    pub buffer_truth: DiagBufferTruth,
    pub fingerprint_truth: DiagFingerprintTruth,
}

/// The attempt's cache plan and its resolution.
#[derive(Clone, Debug, PartialEq, Eq)]
pub struct DiagCache {
    pub planned_action: Option<DiagCacheActionTag>,
    pub fingerprint_action: Option<DiagFingerprintActionTag>,
    pub committed_before: Option<DiagCacheTruth>,
    pub resolution: DiagCacheResolution,
    pub committed_after: DiagCacheTruth,
}

impl Default for DiagCache {
    /// Nothing planned, committed, with a stale and layout-less truth.
    fn default() -> (d: Self)
        ensures
            d.planned_action is None,
            d.fingerprint_action is None,
            d.committed_before is None,
            d.resolution == DiagCacheResolution::Committed,
            d.committed_after.layout is None,
            d.committed_after.buffer_truth == DiagBufferTruth::Stale,
            d.committed_after.fingerprint_truth == DiagFingerprintTruth::Stale,
    {
        DiagCache {
            planned_action: None,
            fingerprint_action: None,
            committed_before: None,
            resolution: DiagCacheResolution::Committed,
            committed_after: DiagCacheTruth {
                layout: None,
                buffer_truth: DiagBufferTruth::Stale,
                fingerprint_truth: DiagFingerprintTruth::Stale,
            },
        }
    }
}

/// A strip the blit revealed.
#[derive(Clone, Copy, Debug, PartialEq, Eq, Structural)]
pub struct DiagRevealedStrip {
    pub region: PaneRegion,
    pub range: RCRange,
}

/// What a blit attempt shifted and revealed.
#[derive(Clone, Debug, PartialEq, Eq)]
pub struct DiagBlit {
    pub axis: Axis,
    pub delta: i32,
    pub src: PixelRect,
    pub dst: PixelRect,
    pub clip: Option<PixelRect>,
    pub strip: PixelRect,
    pub revealed: Vec<DiagRevealedStrip>,
    pub result: DiagBlitResultTag,
    pub cold_cache: Option<bool>,
}

/// How many rows and cells an attempt painted.
#[derive(Clone, Copy, Debug, Default, PartialEq, Eq, Structural)]
pub struct DiagPaintCounts {
    pub rows: usize,
    pub cells: usize,
}

} // verus!
