//! Held paint attempts: why an attempt was held, what it reports, and what
//! work it requeues.

use vstd::prelude::*;

use crate::chrome::Chrome;
use crate::chrome::mask::PaneRegionMask;
use crate::chrome::recycled_slots::RecycledSlots;
use crate::frame::inputs::FrameInputFailure;
use crate::frame::flags::WorkFlags;
use crate::frame::plan::RenderStrategy;
use crate::frame::report::{FrameOutcome, FrameTrace, PaintResult};
use crate::frame::work::{
    ContentModel, PendingWork, WorkModel, empty_work, spec_content_merge, spec_work_merge, work_flags_of,
};

verus! {

/// Why a paint attempt was held. Only held causes exist here: a held
/// attempt can never carry a committed reason.
#[derive(Clone, Copy, Debug, PartialEq, Eq, Structural)]
pub enum HoldReason {
    /// Input capture failed before dispatch reached a strategy at all.
    InputFailure(FrameInputFailure),
    /// A bulk bridge fetch failed during a strategy's prepare phase; the
    /// whole attempt is requeued.
    BridgeFailure,
}

impl HoldReason {
    /// Exact public outcome projection for the frame trace.
    pub fn frame_outcome(&self) -> (o: FrameOutcome)
        ensures
            o == match *self {
                HoldReason::InputFailure(f) => FrameOutcome::HeldOnInputFailure(f),
                HoldReason::BridgeFailure => FrameOutcome::HeldOnBridgeFailure,
            },
    {
        match self {
            HoldReason::InputFailure(failure) => FrameOutcome::HeldOnInputFailure(*failure),
            HoldReason::BridgeFailure => FrameOutcome::HeldOnBridgeFailure,
        }
    }
}

/// A bridge hold invalidates the attempted content transaction as a whole:
/// keep any coalesced geometry/view/overlay intent, but widen content to the
/// full visible grid before the retry merges back into pending work.
pub fn retry_grid_wide(work: PendingWork) -> (r: PendingWork)
    ensures
        r@ == (WorkModel {
            content: spec_content_merge(work@.content, ContentModel::Panes(PaneRegionMask::All)),
            ..work@
        }),
{
    let mut work = work;
    work.mark_all_content();
    work
}

/// What settling an attempt does to the committed frame: keep it as it
/// stands, or install a new one.
pub enum FrameUpdate {
    /// Leave the committed frame untouched: an overlay attempt never had a
    /// candidate, and a held attempt that never took the frame has nothing
    /// to put back.
    Preserve,
    /// Install this frame as the committed one.
    Replace(Chrome),
}

/// How a paint attempt ended.
pub enum AttemptOutcome {
    /// Only overlay state was painted; the committed frame is kept.
    OverlayCommitted,
    /// A grid strategy executed; its frame update is installed.
    GridCommitted { frame: FrameUpdate, effective: RenderStrategy },
    /// The attempt was held; `retry` is the work it requeues, and `frame`
    /// hands back the frame a strategy took to build its candidate.
    Held { retry: PendingWork, frame: FrameUpdate, reason: HoldReason },
}

/// The frame update an outcome carries; an overlay commit preserves.
pub open spec fn frame_update_of(outcome: AttemptOutcome) -> FrameUpdate {
    match outcome {
        AttemptOutcome::OverlayCommitted => FrameUpdate::Preserve,
        AttemptOutcome::GridCommitted { frame, .. } => frame,
        AttemptOutcome::Held { frame, .. } => frame,
    }
}

/// Four empty slot vectors: what the pool holds after a frame's slots are
/// drained into it.
pub open spec fn drained(pool: RecycledSlots) -> bool {
    &&& pool.frozen_rows@.len() == 0
    &&& pool.scroll_rows@.len() == 0
    &&& pool.frozen_cols@.len() == 0
    &&& pool.scroll_cols@.len() == 0
}

/// Installing `update` over a ledger whose committed frame was `before`
/// and pool `pool_before` gives frame `after` and pool `pool_after`: a
/// preserve touches neither; a replace installs the new frame and, when
/// one was displaced, drains its slots into the pool.
pub open spec fn installs(
    update: FrameUpdate,
    before: Option<Chrome>,
    pool_before: RecycledSlots,
    after: Option<Chrome>,
    pool_after: RecycledSlots,
) -> bool {
    match update {
        FrameUpdate::Preserve => after == before && pool_after == pool_before,
        FrameUpdate::Replace(c) => {
            &&& after == Some(c)
            &&& before is Some ==> drained(pool_after)
            &&& before is None ==> pool_after == pool_before
        },
    }
}

/// What settling an attempt decided: whether it committed, whether grid
/// pixels were painted (and so are presented), the strategy that took
/// effect, the outcome reported in the trace, and the result returned to
/// the host.
#[derive(Clone, Copy, Debug, PartialEq, Eq, Structural)]
pub struct Settlement {
    pub committed: bool,
    pub grid_painted: bool,
    pub effective: Option<RenderStrategy>,
    pub frame_outcome: FrameOutcome,
    pub result: PaintResult,
}

/// The settlement an outcome implies.
pub open spec fn spec_settlement(outcome: AttemptOutcome) -> Settlement {
    match outcome {
        AttemptOutcome::OverlayCommitted => Settlement {
            committed: true,
            grid_painted: false,
            effective: Some(RenderStrategy::OverlayOnly),
            frame_outcome: FrameOutcome::Painted,
            result: PaintResult::Rendered,
        },
        AttemptOutcome::GridCommitted { effective, .. } => Settlement {
            committed: true,
            grid_painted: true,
            effective: Some(effective),
            frame_outcome: FrameOutcome::Painted,
            result: PaintResult::Rendered,
        },
        AttemptOutcome::Held { reason, .. } => Settlement {
            committed: false,
            grid_painted: false,
            effective: None,
            frame_outcome: match reason {
                HoldReason::InputFailure(f) => FrameOutcome::HeldOnInputFailure(f),
                HoldReason::BridgeFailure => FrameOutcome::HeldOnBridgeFailure,
            },
            result: PaintResult::RetryRequired,
        },
    }
}

/// The sequence number after `s`, wrapping at `u64::MAX`.
pub open spec fn next_seq(s: u64) -> u64 {
    if s == u64::MAX { 0 } else { (s + 1) as u64 }
}

/// The attempt bookkeeping of the orchestrator: queued work, attempt and
/// commit sequence numbers, what the last attempt reported, the committed
/// frame, and the pool of slot vectors drained from displaced frames.
pub struct AttemptLedger {
    pub last_frame: Option<Chrome>,
    pub spare_slots: RecycledSlots,
    pub pending: PendingWork,
    pub attempt_seq: u64,
    pub commit_seq: u64,
    pub last_strategy: Option<RenderStrategy>,
    pub last_effective_strategy: Option<RenderStrategy>,
    pub last_work_flags: WorkFlags,
    pub last_trace: FrameTrace,
}

impl AttemptLedger {
    /// A ledger with nothing queued and nothing attempted.
    pub fn new() -> (l: Self)
        ensures
            l.pending@ == empty_work(),
            l.last_frame is None,
            drained(l.spare_slots),
            l.attempt_seq == 0,
            l.commit_seq == 0,
            l.last_strategy is None,
            l.last_effective_strategy is None,
            l.last_work_flags == WorkFlags::EMPTY,
            l.last_trace == (FrameTrace {
                attempt_seq: 0,
                committed_seq: None,
                strategy: None,
                effective: None,
                work: WorkFlags::EMPTY,
                verdict: None,
                outcome: FrameOutcome::Painted,
                blit_fallback: None,
                fetched_cell_slots: 0,
                fetched_cells: 0,
                fetch_batches: 0,
            }),
    {
        AttemptLedger {
            last_frame: None,
            spare_slots: RecycledSlots {
                frozen_rows: Vec::new(),
                scroll_rows: Vec::new(),
                frozen_cols: Vec::new(),
                scroll_cols: Vec::new(),
            },
            pending: PendingWork::new(),
            attempt_seq: 0,
            commit_seq: 0,
            last_strategy: None,
            last_effective_strategy: None,
            last_work_flags: WorkFlags::EMPTY,
            last_trace: FrameTrace {
                attempt_seq: 0,
                committed_seq: None,
                strategy: None,
                effective: None,
                work: WorkFlags::EMPTY,
                verdict: None,
                outcome: FrameOutcome::Painted,
                blit_fallback: None,
                fetched_cell_slots: 0,
                fetched_cells: 0,
                fetch_batches: 0,
            },
        }
    }

    /// Start an attempt: with a model bound and work queued, take the whole
    /// queue and number the attempt. Without a model nothing is taken
    /// (work queued before the first model would otherwise be dropped); an
    /// empty queue is idle.
    pub fn begin(&mut self, has_model: bool) -> (work: Option<PendingWork>)
        ensures
            !has_model || old(self).pending@ == empty_work() ==> {
                &&& work is None
                &&& final(self).pending@ == old(self).pending@
                &&& final(self).attempt_seq == old(self).attempt_seq
            },
            has_model && old(self).pending@ != empty_work() ==> {
                &&& work matches Some(w) && w@ == old(self).pending@
                &&& final(self).pending@ == empty_work()
                &&& final(self).attempt_seq == next_seq(old(self).attempt_seq)
            },
            final(self).commit_seq == old(self).commit_seq,
            final(self).last_strategy == old(self).last_strategy,
            final(self).last_effective_strategy == old(self).last_effective_strategy,
            final(self).last_work_flags == old(self).last_work_flags,
            final(self).last_trace == old(self).last_trace,
            final(self).last_frame == old(self).last_frame,
            final(self).spare_slots == old(self).spare_slots,
    {
        if !has_model {
            return None;
        }
        if self.pending.is_empty() {
            return None;
        }
        let mut work = PendingWork::new();
        std::mem::swap(&mut work, &mut self.pending);
        self.attempt_seq = self.attempt_seq.wrapping_add(1);
        Some(work)
    }

    /// Settle an attempt. The outcome's frame update is installed: a
    /// preserve leaves the committed frame and the slot pool untouched, a
    /// replace installs its frame and drains the displaced one's slots into
    /// the pool. A commit advances the commit sequence; a held attempt
    /// merges its retry work into whatever was queued meanwhile.
    /// The strategy the plan selected, the one that took effect, the work
    /// flags and the trace (the renderer's, stamped with this attempt's
    /// numbers, strategies, work and outcome) become the last attempt's
    /// report.
    pub fn finish(
        &mut self,
        selected: Option<RenderStrategy>,
        work_flags: WorkFlags,
        outcome: AttemptOutcome,
        renderer_trace: FrameTrace,
    ) -> (s: Settlement)
        ensures
            s == spec_settlement(outcome),
            installs(
                frame_update_of(outcome),
                old(self).last_frame,
                old(self).spare_slots,
                final(self).last_frame,
                final(self).spare_slots,
            ),
            final(self).pending@ == match outcome {
                AttemptOutcome::Held { retry, .. } => spec_work_merge(old(self).pending@, retry@),
                _ => old(self).pending@,
            },
            final(self).commit_seq == if s.committed {
                next_seq(old(self).commit_seq)
            } else {
                old(self).commit_seq
            },
            final(self).attempt_seq == old(self).attempt_seq,
            final(self).last_strategy == selected,
            final(self).last_effective_strategy == s.effective,
            final(self).last_work_flags == work_flags,
            final(self).last_trace == (FrameTrace {
                attempt_seq: old(self).attempt_seq,
                committed_seq: if s.committed {
                    Some(next_seq(old(self).commit_seq))
                } else {
                    None
                },
                strategy: selected,
                effective: s.effective,
                work: work_flags,
                outcome: s.frame_outcome,
                ..renderer_trace
            }),
    {
        let (settlement, frame, retry) = match outcome {
            AttemptOutcome::OverlayCommitted => (
                Settlement {
                    committed: true,
                    grid_painted: false,
                    effective: Some(RenderStrategy::OverlayOnly),
                    frame_outcome: FrameOutcome::Painted,
                    result: PaintResult::Rendered,
                },
                FrameUpdate::Preserve,
                None,
            ),
            AttemptOutcome::GridCommitted { frame, effective } => (
                Settlement {
                    committed: true,
                    grid_painted: true,
                    effective: Some(effective),
                    frame_outcome: FrameOutcome::Painted,
                    result: PaintResult::Rendered,
                },
                frame,
                None,
            ),
            AttemptOutcome::Held { retry, frame, reason } => (
                Settlement {
                    committed: false,
                    grid_painted: false,
                    effective: None,
                    frame_outcome: reason.frame_outcome(),
                    result: PaintResult::RetryRequired,
                },
                frame,
                Some(retry),
            ),
        };
        match frame {
            FrameUpdate::Preserve => {},
            FrameUpdate::Replace(new_frame) => {
                let mut displaced = Some(new_frame);
                std::mem::swap(&mut displaced, &mut self.last_frame);
                match displaced {
                    Some(old_frame) => {
                        self.spare_slots = RecycledSlots::from_pane_set(old_frame.pane_set);
                    },
                    None => {},
                }
            },
        }
        match retry {
            Some(retry) => {
                self.pending.merge(retry);
            },
            None => {},
        }
        let committed_seq = if settlement.committed {
            self.commit_seq = self.commit_seq.wrapping_add(1);
            Some(self.commit_seq)
        } else {
            None
        };
        self.last_strategy = selected;
        self.last_effective_strategy = settlement.effective;
        self.last_work_flags = work_flags;
        let mut trace = renderer_trace;
        trace.attempt_seq = self.attempt_seq;
        trace.committed_seq = committed_seq;
        trace.strategy = selected;
        trace.effective = settlement.effective;
        trace.work = work_flags;
        trace.outcome = settlement.frame_outcome;
        self.last_trace = trace;
        settlement
    }

    /// Settle an attempt whose input capture failed. Nothing reached a
    /// strategy, so nothing was painted and no frame was taken: the whole
    /// taken `work` is requeued, the committed frame is preserved, no
    /// strategy is reported, and the trace carries the failure.
    pub fn hold_on_capture_failure(
        &mut self,
        work: PendingWork,
        failure: FrameInputFailure,
        renderer_trace: FrameTrace,
    ) -> (s: Settlement)
        ensures
            s == (Settlement {
                committed: false,
                grid_painted: false,
                effective: None,
                frame_outcome: FrameOutcome::HeldOnInputFailure(failure),
                result: PaintResult::RetryRequired,
            }),
            final(self).pending@ == spec_work_merge(old(self).pending@, work@),
            final(self).last_frame == old(self).last_frame,
            final(self).spare_slots == old(self).spare_slots,
            final(self).commit_seq == old(self).commit_seq,
            final(self).attempt_seq == old(self).attempt_seq,
            final(self).last_strategy is None,
            final(self).last_effective_strategy is None,
            final(self).last_work_flags == work_flags_of(work@),
            final(self).last_trace == (FrameTrace {
                attempt_seq: old(self).attempt_seq,
                committed_seq: None,
                strategy: None,
                effective: None,
                work: work_flags_of(work@),
                outcome: FrameOutcome::HeldOnInputFailure(failure),
                ..renderer_trace
            }),
    {
        let flags = work.flags();
        let outcome = AttemptOutcome::Held {
            retry: work,
            frame: FrameUpdate::Preserve,
            reason: HoldReason::InputFailure(failure),
        };
        self.finish(None, flags, outcome, renderer_trace)
    }
}

} // verus!
