//! Single-axis scroll blit fast-path: plan construction and the
//! qualification probes that decide whether the kept band survives a shift.
//!
//! A blit copies the part of the scroll pane that stays on screen (the kept
//! band) and repaints only the newly revealed strip. The probes verify that
//! every kept slot's cached extent still matches what the model reports;
//! only then do the shifted pixels land where a fresh frame would paint
//! them.

use vstd::prelude::*;

use crate::address::{clamp_i32, imax, saturating_add_i32};
use crate::chrome::mask::PaneRegionMask;
use crate::chrome::pane_region::PaneRegion;
use crate::chrome::pane_set::{
    PaneSet, decimal_digits, header_width_for_digits, lemma_decimal_digits_monotone, lemma_header_width_monotone,
    measure_row_header_width,
};
use crate::chrome::Chrome;
use crate::frame::delta::{AxisRange, BlitPlan, Shift};
use crate::geometry::pixel_rect::{PixelRect, fits_i32};
use crate::geometry::prim::{Axis, Point};
use crate::geometry::slot::{
    AxisSlot, ColSlot, RowSlot, cursor_after, dense_from, ends_fit, fill_axis, laid_out, measured_by, slot_end,
};

verus! {

/// Direction of a single-axis viewport shift between the previous first
/// scroll id and the new one.
///
/// `Forward`: new > old; the kept band moves toward smaller coordinates and
/// the strip lands at the far edge of the pane. `Backward`: new < old; the
/// kept band moves toward larger coordinates and the strip lands at the
/// near edge.
#[derive(Clone, Copy, Debug, PartialEq, Eq, Structural)]
pub enum ShiftDir {
    Forward,
    Backward,
}

/// One pane's contribution to a scroll blit: `src` and `dst` have the same
/// size and differ only in their offset along the scroll axis.
#[derive(Clone, Copy, Debug, PartialEq, Eq, Structural)]
pub struct PaneShift {
    pub pane: PaneRegion,
    pub src: PixelRect,
    pub dst: PixelRect,
}

/// `rect` with its cross-axis origin and size replaced (x/width for a row
/// scroll, y/height for a column scroll); the scroll-axis range is kept.
pub open spec fn cross_band(rect: PixelRect, scroll_axis: Axis, cross_origin: i32, cross_size: i32) -> PixelRect {
    match scroll_axis {
        Axis::Row => PixelRect {
            top_left: Point { x: cross_origin, y: rect.top_left.y },
            width: cross_size,
            height: rect.height,
        },
        Axis::Column => PixelRect {
            top_left: Point { x: rect.top_left.x, y: cross_origin },
            width: rect.width,
            height: cross_size,
        },
    }
}

/// Replace the cross-axis range of `rect`.
fn band(rect: PixelRect, scroll_axis: Axis, cross_origin: i32, cross_size: i32) -> (r: PixelRect)
    ensures
        r == cross_band(rect, scroll_axis, cross_origin, cross_size),
{
    match scroll_axis {
        Axis::Row => PixelRect {
            top_left: Point { x: cross_origin, y: rect.top_left.y },
            width: cross_size,
            height: rect.height,
        },
        Axis::Column => PixelRect {
            top_left: Point { x: rect.top_left.x, y: cross_origin },
            width: rect.width,
            height: cross_size,
        },
    }
}

impl PaneShift {
    /// A sibling shift in a cross-axis pane (the frozen-cross band): the
    /// scroll-axis range carries over from `self`; only the cross-axis
    /// origin and size are replaced. Row scrolls produce a bottom-left
    /// sibling (cross axis X), column scrolls a top-right one (cross axis Y).
    pub fn for_frozen_band(&self, pane: PaneRegion, scroll_axis: Axis, cross_origin: i32, cross_size: i32) -> (r:
        PaneShift)
        ensures
            r.pane == pane,
            r.src == cross_band(self.src, scroll_axis, cross_origin, cross_size),
            r.dst == cross_band(self.dst, scroll_axis, cross_origin, cross_size),
    {
        PaneShift {
            pane,
            src: band(self.src, scroll_axis, cross_origin, cross_size),
            dst: band(self.dst, scroll_axis, cross_origin, cross_size),
        }
    }
}

/// The rectangle spanning `[main_origin, main_origin + main_size)` along
/// `scroll_axis` and the `cross` range along the other axis.
pub open spec fn axis_rect(scroll_axis: Axis, cross: AxisRange, main_origin: int, main_size: int) -> PixelRect {
    match scroll_axis {
        Axis::Row => PixelRect {
            top_left: Point { x: cross.origin, y: main_origin as i32 },
            width: cross.size,
            height: main_size as i32,
        },
        Axis::Column => PixelRect {
            top_left: Point { x: main_origin as i32, y: cross.origin },
            width: main_size as i32,
            height: cross.size,
        },
    }
}

fn make_rect(scroll_axis: Axis, cross: AxisRange, main_origin: i32, main_size: i32) -> (r: PixelRect)
    ensures
        r == axis_rect(scroll_axis, cross, main_origin as int, main_size as int),
{
    match scroll_axis {
        Axis::Row => PixelRect {
            top_left: Point { x: cross.origin, y: main_origin },
            width: cross.size,
            height: main_size,
        },
        Axis::Column => PixelRect {
            top_left: Point { x: main_origin, y: cross.origin },
            width: main_size,
            height: cross.size,
        },
    }
}

/// The arithmetic of [`BlitPlan::for_axis_scroll`] stays inside `i32`.
pub open spec fn axis_scroll_fits(main_pane: AxisRange, shift_px: int, canvas_main: int) -> bool {
    &&& fits_i32(main_pane.size - shift_px)
    &&& fits_i32(main_pane.origin + shift_px)
    &&& fits_i32(main_pane.origin + main_pane.size - shift_px)
    &&& fits_i32(canvas_main - (main_pane.origin + main_pane.size - shift_px))
}

/// The plan of an axis scroll by `shift_px` in direction `dir`: the kept
/// band is `main_pane.size - shift_px` long. Forward, it is copied from past
/// the leaving band to the pane origin and the strip covers everything past
/// it through the canvas edge (never less than `shift_px`); backward, it is
/// copied from the pane origin `shift_px` further on and the strip is the
/// newly revealed near band.
pub open spec fn axis_scroll_plan(
    scroll_axis: Axis,
    main_pane: AxisRange,
    cross_pane: AxisRange,
    shift_px: int,
    dir: ShiftDir,
    canvas_main: int,
) -> BlitPlan {
    let kept = main_pane.size - shift_px;
    let far = main_pane.origin + kept;
    match dir {
        ShiftDir::Forward => BlitPlan {
            axis: scroll_axis,
            shift: Shift {
                src: axis_rect(scroll_axis, cross_pane, main_pane.origin + shift_px, kept),
                dst: axis_rect(scroll_axis, cross_pane, main_pane.origin as int, kept),
            },
            pixel_strip: axis_rect(scroll_axis, cross_pane, far, imax(canvas_main - far, shift_px)),
        },
        ShiftDir::Backward => BlitPlan {
            axis: scroll_axis,
            shift: Shift {
                src: axis_rect(scroll_axis, cross_pane, main_pane.origin as int, kept),
                dst: axis_rect(scroll_axis, cross_pane, main_pane.origin + shift_px, kept),
            },
            pixel_strip: axis_rect(scroll_axis, cross_pane, main_pane.origin as int, shift_px),
        },
    }
}

impl BlitPlan {
    /// Compose an axis-scroll plan. `main_pane` is the scroll pane's range
    /// along `scroll_axis`, `cross_pane` its range along the other axis;
    /// the kept band is `main_pane.size - shift_px` long.
    ///
    /// Forward: the source sits past the leaving band and the destination
    /// at the pane origin; the strip covers everything past the shifted
    /// band through the canvas edge (`canvas_main`), and never less than
    /// `shift_px`. Backward: the source sits at the pane origin and the
    /// destination `shift_px` further on; the strip fills the newly revealed
    /// near band.
    pub fn for_axis_scroll(
        scroll_axis: Axis,
        main_pane: AxisRange,
        cross_pane: AxisRange,
        shift_px: i32,
        dir: ShiftDir,
        canvas_main: i32,
    ) -> (plan: BlitPlan)
        requires
            axis_scroll_fits(main_pane, shift_px as int, canvas_main as int),
        ensures
            plan == axis_scroll_plan(scroll_axis, main_pane, cross_pane, shift_px as int, dir, canvas_main as int),
    {
        let kept = main_pane.size - shift_px;
        let (src_main, dst_main, strip_main_origin, strip_main_size) = match dir {
            ShiftDir::Forward => {
                let strip_origin = main_pane.origin + kept;
                let past = canvas_main - strip_origin;
                (
                    main_pane.origin + shift_px,
                    main_pane.origin,
                    strip_origin,
                    if past >= shift_px { past } else { shift_px },
                )
            },
            ShiftDir::Backward => (main_pane.origin, main_pane.origin + shift_px, main_pane.origin, shift_px),
        };
        BlitPlan {
            axis: scroll_axis,
            shift: Shift {
                src: make_rect(scroll_axis, cross_pane, src_main, kept),
                dst: make_rect(scroll_axis, cross_pane, dst_main, kept),
            },
            pixel_strip: make_rect(scroll_axis, cross_pane, strip_main_origin, strip_main_size),
        }
    }

    /// Panes whose pixels shift along the plan's axis and therefore need a
    /// strip fetch and a repaint: bottom-left and bottom-right on a row
    /// scroll, top-right and bottom-right on a column scroll. The panes
    /// across the scroll axis are stable and excluded.
    pub fn shift_panes(&self) -> (m: PaneRegionMask)
        ensures
            m == match self.axis {
                Axis::Row => PaneRegionMask::Bottom,
                Axis::Column => PaneRegionMask::Right,
            },
    {
        match self.axis {
            Axis::Row => PaneRegionMask::Bottom,
            Axis::Column => PaneRegionMask::Right,
        }
    }
}

/// Every slot of `slots` has the extent `measure` reports for its id.
pub open spec fn extents_confirmed<S: AxisSlot, F: Fn(i32) -> Option<i32>>(measure: F, slots: Seq<S>) -> bool {
    forall|k: int| 0 <= k < slots.len() ==> call_ensures(measure, (#[trigger] slots[k].spec_id(),), Some(slots[k].spec_extent()))
}

/// `measure` reported, for some slot of `slots`, something other than that
/// slot's extent (a different extent or a failed read).
pub open spec fn extent_disputed<S: AxisSlot, F: Fn(i32) -> Option<i32>>(measure: F, slots: Seq<S>) -> bool {
    exists|k: int, v: Option<i32>|
        0 <= k < slots.len() && #[trigger] call_ensures(measure, (slots[k].spec_id(),), v) && v != Some(slots[k].spec_extent())
}

/// Verify every slot's cached extent still matches what the model reports.
/// A failed read (`None`) rejects the match: the kept band would no longer
/// survive the blit.
pub fn overlaps_match<S: AxisSlot, F: Fn(i32) -> Option<i32>>(slots: &[S], measure: &F) -> (b: bool)
    requires
        forall|id: i32| measure.requires((id,)),
    ensures
        b ==> extents_confirmed(*measure, slots@),
        !b ==> extent_disputed(*measure, slots@),
{
    let mut i: usize = 0;
    while i < slots.len()
        invariant
            forall|id: i32| measure.requires((id,)),
            0 <= i <= slots@.len(),
            extents_confirmed(*measure, slots@.subrange(0, i as int)),
        decreases slots.len() - i,
    {
        let s = &slots[i];
        let v = measure(s.id());
        let same = match v {
            Some(e) => e == s.extent(),
            None => false,
        };
        if !same {
            proof {
                assert(call_ensures(*measure, (slots@[i as int].spec_id(),), v));
            }
            return false;
        }
        proof {
            let next = slots@.subrange(0, i + 1);
            assert forall|k: int| 0 <= k < next.len() implies call_ensures(
                *measure,
                (#[trigger] next[k].spec_id(),),
                Some(next[k].spec_extent()),
            ) by {
                if k < i {
                    assert(next[k] == slots@.subrange(0, i as int)[k]);
                }
            }
        }
        i = i + 1;
    }
    proof {
        assert(slots@.subrange(0, slots@.len() as int) =~= slots@);
    }
    true
}

/// Saturating `i32` total of the reported extents, a failed read counting
/// as zero.
pub open spec fn strip_total(reads: Seq<Option<i32>>) -> int
    decreases reads.len(),
{
    if reads.len() == 0 {
        0
    } else {
        clamp_i32(
            strip_total(reads.drop_last()) + match reads.last() {
                Some(h) => h as int,
                None => 0,
            },
        )
    }
}

/// `reads[i]` is what `measure` reported for id `first + i`.
pub open spec fn strip_reads<F: Fn(i32) -> Option<i32>>(measure: F, first: int, reads: Seq<Option<i32>>) -> bool {
    forall|i: int| 0 <= i < reads.len() ==> call_ensures(measure, ((first + i) as i32,), #[trigger] reads[i])
}

/// The ids and leading edges of `slots` are laid out as a painted band:
/// non-negative starts and extents.
pub open spec fn band_nonneg<S: AxisSlot>(slots: Seq<S>) -> bool {
    forall|k: int| 0 <= k < slots.len() ==> (#[trigger] slots[k]).spec_start() >= 0 && slots[k].spec_extent() >= 0
}

/// What [`probe_axis_shift`] decides for band `prev` shifted so that its
/// first id becomes `new_first`, in a pane at `origin` spanning `extent`.
pub open spec fn probe_outcome<S: AxisSlot, F: Fn(i32) -> Option<i32>>(
    measure: F,
    prev: Seq<S>,
    new_first: int,
    origin: int,
    extent: int,
    r: Option<(i32, ShiftDir)>,
) -> bool {
    &&& prev.len() == 0 ==> r is None
    &&& prev.len() > 0 && new_first > prev[0].spec_id() ==> ({
        let d = new_first - prev[0].spec_id();
        let leaving = prev[d].spec_start() - origin;
        match r {
            Some(p) => {
                &&& d < prev.len()
                &&& 0 < leaving < extent
                &&& extents_confirmed(measure, prev.skip(d))
                &&& p == (leaving as i32, ShiftDir::Forward)
            },
            None => d >= prev.len() || leaving <= 0 || leaving >= extent || extent_disputed(measure, prev.skip(d)),
        }
    })
    &&& prev.len() > 0 && new_first <= prev[0].spec_id() ==> exists|reads: Seq<Option<i32>>|
        {
            &&& reads.len() == prev[0].spec_id() - new_first
            &&& #[trigger] strip_reads(measure, new_first, reads)
            &&& ({
                let strip = strip_total(reads);
                match r {
                    Some(p) => {
                        &&& 0 < strip < extent
                        &&& extents_confirmed(measure, prev)
                        &&& p == (strip as i32, ShiftDir::Backward)
                    },
                    None => strip <= 0 || strip >= extent || extent_disputed(measure, prev),
                }
            })
        }
}

/// Single-axis blit probe. `Some((shift_px, dir))` when the kept band still
/// matches the model after shifting the band's first id from
/// `prev_slots[0]`'s id to `new_first_idx`; `None` when geometry, extent or
/// overlap rejects the shift. `pane_origin`/`pane_extent` bound the scroll
/// pane along the scroll axis.
///
/// Forward, by `d` ids: the leaving band ends where slot `d` starts; it
/// must be strictly inside the pane, and every slot from `d` on must still
/// measure as cached. Backward, by `d` ids: the strip is the saturating
/// total of the `d` newly revealed extents (a failed read counts as zero);
/// it must be strictly inside the pane, and every previous slot must still
/// measure as cached.
pub fn probe_axis_shift<S: AxisSlot, F: Fn(i32) -> Option<i32>>(
    prev_slots: &[S],
    new_first_idx: i32,
    pane_origin: i32,
    pane_extent: i32,
    measure: F,
) -> (r: Option<(i32, ShiftDir)>)
    requires
        forall|id: i32| measure.requires((id,)),
        pane_origin >= 0,
        band_nonneg(prev_slots@),
    ensures
        probe_outcome(measure, prev_slots@, new_first_idx as int, pane_origin as int, pane_extent as int, r),
{
    if prev_slots.len() == 0 {
        return None;
    }
    let old_first_idx = prev_slots[0].id();
    if new_first_idx > old_first_idx {
        let d: i64 = new_first_idx as i64 - old_first_idx as i64;
        if d as u64 >= prev_slots.len() as u64 {
            return None;
        }
        let leaving = prev_slots[d as usize].start() - pane_origin;
        if leaving <= 0 || leaving >= pane_extent {
            return None;
        }
        let kept = slice_from(prev_slots, d as usize);
        if !overlaps_match(kept, &measure) {
            return None;
        }
        Some((leaving, ShiftDir::Forward))
    } else {
        let d: i64 = old_first_idx as i64 - new_first_idx as i64;
        let mut strip: i32 = 0;
        let mut i: i64 = 0;
        let ghost mut reads: Seq<Option<i32>> = Seq::empty();
        while i < d
            invariant
                forall|id: i32| measure.requires((id,)),
                0 <= i <= d,
                d == old_first_idx - new_first_idx,
                reads.len() == i,
                strip_reads(measure, new_first_idx as int, reads),
                strip == strip_total(reads),
            decreases d - i,
        {
            let v = measure((new_first_idx as i64 + i) as i32);
            let h = match v {
                Some(h) => h,
                None => 0,
            };
            proof {
                let next = reads.push(v);
                assert(next.drop_last() =~= reads);
                assert forall|j: int| 0 <= j < next.len() implies call_ensures(
                    measure,
                    ((new_first_idx + j) as i32,),
                    #[trigger] next[j],
                ) by {
                    if j < reads.len() {
                        assert(next[j] == reads[j]);
                    }
                }
                reads = next;
            }
            strip = saturating_add_i32(strip, h);
            i = i + 1;
        }
        if strip <= 0 || strip >= pane_extent {
            return None;
        }
        if !overlaps_match(prev_slots, &measure) {
            return None;
        }
        Some((strip, ShiftDir::Backward))
    }
}

/// `slots[from..]`.
fn slice_from<S>(slots: &[S], from: usize) -> (r: &[S])
    requires
        from <= slots@.len(),
    ensures
        r@ == slots@.skip(from as int),
{
    let ghost want = slots@.skip(from as int);
    vstd::slice::slice_subrange(slots, from, slots.len())
}

/// `measure` can report `s`'s extent for `s`'s id.
pub open spec fn measured_slot<S: AxisSlot, F: Fn(i32) -> Option<i32>>(measure: F, s: S) -> bool {
    call_ensures(measure, (s.spec_id(),), Some(s.spec_extent()))
}

/// Which slots of a rebuilt band came from where. Forward by `d`: the first
/// `n - d` slots carry the extents of `prev[d..]`, the rest were measured.
/// Backward by `d`: the first `d` slots (the strip) were measured, the next
/// `n - d` carry the extents of `prev[..n - d]`, the rest were measured.
pub open spec fn rebuilt_from<S: AxisSlot, F: Fn(i32) -> Option<i32>>(
    measure: F,
    prev: Seq<S>,
    forward: bool,
    d: int,
    v: Seq<S>,
) -> bool {
    let n = prev.len() as int;
    forall|k: int|
        0 <= k < v.len() ==> if forward {
            if k < n - d {
                (#[trigger] v[k]).spec_extent() == prev[d + k].spec_extent()
            } else {
                measured_slot(measure, v[k])
            }
        } else {
            if d <= k < n {
                (#[trigger] v[k]).spec_extent() == prev[k - d].spec_extent()
            } else {
                measured_slot(measure, v[k])
            }
        }
}

/// `p` is what a walk of ids from `first`, laid end to end from `start`,
/// had laid out when the read for the next id stopped it: that read
/// failed, or its extent would push the cursor out of the `i32` range.
pub open spec fn walk_aborted<S: AxisSlot, F: Fn(i32) -> Option<i32>>(measure: F, p: Seq<S>, first: int, start: int) -> bool {
    &&& laid_out(p, first, start)
    &&& measured_by(measure, p)
    &&& (call_ensures(measure, ((first + p.len()) as i32,), None) || exists|e: i32|
        call_ensures(measure, ((first + p.len()) as i32,), Some(e)) && !fits_i32(cursor_after(p, start) + e))
}

/// The walk of the `d` ids revealed by a backward shift of `prev` stopped
/// after laying out `p`.
pub open spec fn strip_abort_at<S: AxisSlot, F: Fn(i32) -> Option<i32>>(
    measure: F,
    prev: Seq<S>,
    d: int,
    frozen_offset: int,
    p: Seq<S>,
) -> bool {
    &&& p.len() < d
    &&& walk_aborted(measure, p, prev[0].spec_id() - d, frozen_offset)
}

/// A read stopped the strip walk of a backward shift of `prev` by `d`.
pub open spec fn strip_aborted<S: AxisSlot, F: Fn(i32) -> Option<i32>>(
    measure: F,
    prev: Seq<S>,
    d: int,
    frozen_offset: int,
) -> bool {
    exists|p: Seq<S>| #[trigger] strip_abort_at(measure, prev, d, frozen_offset, p)
}

/// With the strip `strip` walked, moving slot `k` of `prev` on by the
/// strip's size would take one of its edges out of the `i32` range.
pub open spec fn kept_overflow_at<S: AxisSlot, F: Fn(i32) -> Option<i32>>(
    measure: F,
    prev: Seq<S>,
    d: int,
    frozen_offset: int,
    strip: Seq<S>,
    k: int,
) -> bool {
    let shift = cursor_after(strip, frozen_offset) - frozen_offset;
    &&& strip.len() == d
    &&& laid_out(strip, prev[0].spec_id() - d, frozen_offset)
    &&& measured_by(measure, strip)
    &&& 0 <= k < prev.len() - d
    &&& !(fits_i32(prev[k].spec_start() + shift) && fits_i32(slot_end(prev[k]) + shift))
}

/// For some measured strip, the kept band of a backward shift of `prev` by
/// `d` would leave the `i32` range.
pub open spec fn kept_overflows<S: AxisSlot, F: Fn(i32) -> Option<i32>>(
    measure: F,
    prev: Seq<S>,
    d: int,
    frozen_offset: int,
) -> bool {
    exists|strip: Seq<S>, k: int| #[trigger] kept_overflow_at(measure, prev, d, frozen_offset, strip, k)
}

/// Topping up `band` (its last slot short of `max_cursor` and of
/// `last_limit`) walked `p` and was then stopped by a read.
pub open spec fn top_up_abort_at<S: AxisSlot, F: Fn(i32) -> Option<i32>>(
    measure: F,
    band: Seq<S>,
    max_cursor: int,
    last_limit: int,
    p: Seq<S>,
) -> bool {
    &&& band.len() >= 1
    &&& band.last().spec_start() < max_cursor
    &&& band.last().spec_id() < last_limit
    &&& p.len() < last_limit - band.last().spec_id()
    &&& walk_aborted(measure, p, band.last().spec_id() + 1, slot_end(band.last()))
}

/// A read stopped the walk that tops up `band`.
pub open spec fn top_up_aborted<S: AxisSlot, F: Fn(i32) -> Option<i32>>(
    measure: F,
    band: Seq<S>,
    max_cursor: int,
    last_limit: int,
) -> bool {
    exists|p: Seq<S>| #[trigger] top_up_abort_at(measure, band, max_cursor, last_limit, p)
}

/// `kb` is the band a shift of `prev` to first id `new_first` yields
/// before trimming and topping up: the kept band alone going forward, the
/// strip then the kept band going backward.
pub open spec fn shifted_band<S: AxisSlot, F: Fn(i32) -> Option<i32>>(
    measure: F,
    prev: Seq<S>,
    frozen_offset: int,
    new_first: int,
    kb: Seq<S>,
) -> bool {
    let delta = new_first - prev[0].spec_id();
    let d = if delta >= 0 { delta } else { -delta };
    &&& kb.len() == if delta > 0 { prev.len() - d } else { prev.len() as int }
    &&& laid_out(kb, new_first, frozen_offset)
    &&& rebuilt_from(measure, prev, delta > 0, d, kb)
}

/// Why a rebuild of `prev` to first id `new_first` gave up: a read stopped
/// the strip walk, the kept band would leave the `i32` range, or a read
/// stopped the top-up walk.
pub open spec fn rebuild_aborted<S: AxisSlot, F: Fn(i32) -> Option<i32>>(
    measure: F,
    prev: Seq<S>,
    frozen_offset: int,
    max_cursor: int,
    new_first: int,
    last_limit: int,
) -> bool {
    let delta = new_first - prev[0].spec_id();
    let d = if delta >= 0 { delta } else { -delta };
    ||| delta < 0 && strip_aborted(measure, prev, d, frozen_offset)
    ||| delta < 0 && kept_overflows(measure, prev, d, frozen_offset)
    ||| exists|kb: Seq<S>|
        #[trigger] shifted_band(measure, prev, frozen_offset, new_first, kb) && top_up_aborted(
            measure,
            kb,
            max_cursor,
            last_limit,
        )
}

proof fn lemma_laid_out_concat<S: AxisSlot>(a: Seq<S>, b: Seq<S>, first: int, start: int)
    requires
        laid_out(a, first, start),
        laid_out(b, first + a.len(), cursor_after(a, start)),
    ensures
        laid_out(a + b, first, start),
        cursor_after(a + b, start) == cursor_after(b, cursor_after(a, start)),
{
    let c = a + b;
    assert forall|i: int| 0 <= i < c.len() implies (#[trigger] c[i]).spec_id() == first + i by {
        if i < a.len() {
            assert(c[i] == a[i]);
        } else {
            assert(c[i] == b[i - a.len()]);
        }
    }
    assert forall|k: int| 0 <= k < c.len() - 1 implies #[trigger] c[k + 1].spec_start() == slot_end(c[k]) by {
        if k + 1 < a.len() {
            assert(c[k + 1] == a[k + 1] && c[k] == a[k]);
        } else if k + 1 == a.len() {
            assert(c[k + 1] == b[0] && c[k] == a[k]);
            assert(a.last() == a[k]);
        } else {
            let j = k - a.len();
            assert(c[k + 1] == b[j + 1] && c[k] == b[j]);
            assert(b[j + 1].spec_start() == slot_end(b[j]));
        }
    }
    assert forall|i: int| 0 <= i < c.len() implies fits_i32(#[trigger] slot_end(c[i])) by {
        if i < a.len() {
            assert(c[i] == a[i]);
        } else {
            assert(c[i] == b[i - a.len()]);
        }
    }
    if a.len() == 0 {
        assert(c =~= b);
    }
    if b.len() > 0 {
        assert(c.last() == b.last());
    } else {
        assert(c =~= a);
    }
}

proof fn lemma_laid_out_prefix<S: AxisSlot>(a: Seq<S>, first: int, start: int, n: int)
    requires
        laid_out(a, first, start),
        0 <= n <= a.len(),
    ensures
        laid_out(a.subrange(0, n), first, start),
{
    let c = a.subrange(0, n);
    assert forall|k: int| 0 <= k < c.len() - 1 implies #[trigger] c[k + 1].spec_start() == slot_end(c[k]) by {
        assert(c[k + 1] == a[k + 1] && c[k] == a[k]);
    }
    assert forall|i: int| 0 <= i < c.len() implies (#[trigger] c[i]).spec_id() == first + i by {
        assert(c[i] == a[i]);
    }
    assert forall|i: int| 0 <= i < c.len() implies fits_i32(#[trigger] slot_end(c[i])) by {
        assert(c[i] == a[i]);
    }
}

/// In a contiguous band of non-negative extents, leading edges never
/// decrease.
proof fn lemma_starts_monotone<S: AxisSlot>(a: Seq<S>, first: int, start: int, i: int, j: int)
    requires
        laid_out(a, first, start),
        band_nonneg(a),
        0 <= i <= j < a.len(),
    ensures
        a[i].spec_start() <= a[j].spec_start(),
    decreases j - i,
{
    if i < j {
        lemma_starts_monotone(a, first, start, i, j - 1);
        assert(a[(j - 1) + 1].spec_start() == slot_end(a[j - 1]));
    }
}

/// The kept band of a forward shift by `d`: `prev[d..]` moved back so that
/// `prev[d]` starts at `frozen_offset`.
fn kept_forward<S: AxisSlot>(prev_slots: &[S], d: usize, frozen_offset: i32) -> (v: Vec<S>)
    requires
        frozen_offset >= 0,
        0 < d < prev_slots@.len(),
        band_nonneg(prev_slots@),
        laid_out(prev_slots@, prev_slots@[0].spec_id() as int, frozen_offset as int),
    ensures
        v@.len() == prev_slots@.len() - d,
        laid_out(v@, prev_slots@[0].spec_id() + d, frozen_offset as int),
        forall|j: int| 0 <= j < v@.len() ==> (#[trigger] v@[j]).spec_extent() == prev_slots@[d + j].spec_extent(),
{
    let n = prev_slots.len();
    let ghost first = prev_slots@[0].spec_id() as int;
    let leaving = prev_slots[d].start() - frozen_offset;
    proof {
        lemma_starts_monotone(prev_slots@, first, frozen_offset as int, 0, d as int);
    }
    let mut new_slots: Vec<S> = Vec::new();
    let mut k: usize = d;
    while k < n
        invariant
            n == prev_slots@.len(),
            0 < d <= k <= n,
            leaving == prev_slots@[d as int].spec_start() - frozen_offset,
            frozen_offset >= 0,
            band_nonneg(prev_slots@),
            laid_out(prev_slots@, first, frozen_offset as int),
            first == prev_slots@[0].spec_id(),
            new_slots@.len() == k - d,
            forall|j: int| 0 <= j < new_slots@.len() ==> {
                &&& (#[trigger] new_slots@[j]).spec_id() == prev_slots@[d + j].spec_id()
                &&& new_slots@[j].spec_start() == prev_slots@[d + j].spec_start() - leaving
                &&& new_slots@[j].spec_extent() == prev_slots@[d + j].spec_extent()
            },
        decreases n - k,
    {
        let slot = &prev_slots[k];
        proof {
            lemma_starts_monotone(prev_slots@, first, frozen_offset as int, d as int, k as int);
            lemma_starts_monotone(prev_slots@, first, frozen_offset as int, 0, d as int);
        }
        new_slots.push(S::new(slot.id(), slot.start() - leaving, slot.extent()));
        k = k + 1;
    }
    proof {
        let v = new_slots@;
        assert forall|j: int| 0 <= j < v.len() - 1 implies #[trigger] v[j + 1].spec_start() == slot_end(v[j]) by {
            assert(prev_slots@[(d + j) + 1].spec_start() == slot_end(prev_slots@[d + j]));
        }
        assert forall|j: int| 0 <= j < v.len() implies fits_i32(#[trigger] slot_end(v[j])) by {
            lemma_starts_monotone(prev_slots@, first, frozen_offset as int, d as int, d + j);
            lemma_starts_monotone(prev_slots@, first, frozen_offset as int, 0, d as int);
            assert(fits_i32(slot_end(prev_slots@[d + j])));
        }
    }
    new_slots
}

/// The strip and kept band of a backward shift by `d`: the `d` newly
/// revealed ids walked from `frozen_offset`, then `prev[..n - d]` moved on
/// by the strip's size. `None` when a read aborts the strip walk or a
/// moved edge would leave the `i32` range.
fn strip_then_kept<S: AxisSlot, F: Fn(i32) -> Option<i32>>(
    prev_slots: &[S],
    d: usize,
    frozen_offset: i32,
    measure: &F,
) -> (r: Option<Vec<S>>)
    requires
        forall|id: i32| measure.requires((id,)),
        frozen_offset >= 0,
        0 < d < prev_slots@.len(),
        prev_slots@[0].spec_id() - d >= i32::MIN,
        band_nonneg(prev_slots@),
        laid_out(prev_slots@, prev_slots@[0].spec_id() as int, frozen_offset as int),
    ensures
        r matches Some(v) ==> {
            &&& v@.len() == prev_slots@.len()
            &&& laid_out(v@, prev_slots@[0].spec_id() - d, frozen_offset as int)
            &&& forall|k: int| 0 <= k < v@.len() ==> if k < d {
                measured_slot(*measure, #[trigger] v@[k])
            } else {
                v@[k].spec_extent() == prev_slots@[k - d].spec_extent()
            }
        },
        r is None ==> strip_aborted(*measure, prev_slots@, d as int, frozen_offset as int) || kept_overflows(
            *measure,
            prev_slots@,
            d as int,
            frozen_offset as int,
        ),
{
    let n = prev_slots.len();
    let ghost first = prev_slots@[0].spec_id() as int;
    let old_first_idx = prev_slots[0].id();
    let new_first_idx = (old_first_idx as i64 - d as i64) as i32;
    let strip_last = old_first_idx - 1;
    let mut new_slots: Vec<S> = Vec::new();
    let strip_end = match fill_axis(&mut new_slots, new_first_idx..=strip_last, frozen_offset, None, measure) {
        Some(c) => c,
        None => {
            proof {
                assert(new_slots@.skip(0) =~= new_slots@);
                assert(strip_abort_at(*measure, prev_slots@, d as int, frozen_offset as int, new_slots@));
            }
            return None;
        },
    };
    let strip_size: i64 = strip_end as i64 - frozen_offset as i64;
    let ghost strip = new_slots@;
    proof {
        assert(new_slots@.skip(0) =~= new_slots@);
    }
    let mut k: usize = 0;
    while k < n - d
        invariant
            n == prev_slots@.len(),
            0 < d < n,
            0 <= k <= n - d,
            frozen_offset >= 0,
            band_nonneg(prev_slots@),
            laid_out(prev_slots@, first, frozen_offset as int),
            first == prev_slots@[0].spec_id(),
            new_first_idx == first - d,
            strip.len() == d,
            laid_out(strip, new_first_idx as int, frozen_offset as int),
            forall|j: int| 0 <= j < strip.len() ==> measured_slot(*measure, #[trigger] strip[j]),
            strip_end == cursor_after(strip, frozen_offset as int),
            strip_size == strip_end - frozen_offset,
            new_slots@.len() == d + k,
            new_slots@.subrange(0, d as int) == strip,
            forall|j: int| 0 <= j < k ==> {
                &&& (#[trigger] new_slots@[d + j]).spec_id() == prev_slots@[j].spec_id()
                &&& new_slots@[d + j].spec_start() == prev_slots@[j].spec_start() + strip_size
                &&& new_slots@[d + j].spec_extent() == prev_slots@[j].spec_extent()
                &&& fits_i32(slot_end(new_slots@[d + j]))
            },
        decreases n - d - k,
    {
        let slot = &prev_slots[k];
        let start64: i64 = slot.start() as i64 + strip_size;
        let end64: i64 = start64 + slot.extent() as i64;
        if start64 < i32::MIN as i64 || start64 > i32::MAX as i64 || end64 < i32::MIN as i64 || end64
            > i32::MAX as i64 {
            proof {
                assert(measured_by(*measure, strip));
                assert(kept_overflow_at(*measure, prev_slots@, d as int, frozen_offset as int, strip, k as int));
            }
            return None;
        }
        let ghost before = new_slots@;
        new_slots.push(S::new(slot.id(), start64 as i32, slot.extent()));
        proof {
            assert(new_slots@.subrange(0, d as int) =~= before.subrange(0, d as int));
            assert forall|j: int| 0 <= j < k + 1 implies {
                &&& (#[trigger] new_slots@[d + j]).spec_id() == prev_slots@[j].spec_id()
                &&& new_slots@[d + j].spec_start() == prev_slots@[j].spec_start() + strip_size
                &&& new_slots@[d + j].spec_extent() == prev_slots@[j].spec_extent()
                &&& fits_i32(slot_end(new_slots@[d + j]))
            } by {
                if j < k {
                    assert(new_slots@[d + j] == before[d + j]);
                }
            }
        }
        k = k + 1;
    }
    proof {
        let v = new_slots@;
        let kept = v.skip(d as int);
        assert(v =~= strip + kept);
        assert forall|j: int| 0 <= j < kept.len() implies (#[trigger] kept[j]).spec_id() == (new_first_idx
            + strip.len()) + j by {
            assert(kept[j] == v[d + j]);
        }
        assert forall|j: int| 0 <= j < kept.len() - 1 implies #[trigger] kept[j + 1].spec_start() == slot_end(
            kept[j],
        ) by {
            assert(kept[j + 1] == v[d + (j + 1)] && kept[j] == v[d + j]);
            assert(prev_slots@[j + 1].spec_start() == slot_end(prev_slots@[j]));
        }
        assert forall|j: int| 0 <= j < kept.len() implies fits_i32(#[trigger] slot_end(kept[j])) by {
            assert(kept[j] == v[d + j]);
        }
        assert(kept[0] == v[d + 0]);
        assert(v[d + 0].spec_start() == prev_slots@[0].spec_start() + strip_size);
        assert(laid_out(kept, new_first_idx + strip.len(), cursor_after(strip, frozen_offset as int)));
        lemma_laid_out_concat(strip, kept, new_first_idx as int, frozen_offset as int);
        assert forall|j: int| 0 <= j < v.len() implies if j < d {
            measured_slot(*measure, #[trigger] v[j])
        } else {
            v[j].spec_extent() == prev_slots@[j - d].spec_extent()
        } by {
            if j < d {
                assert(v[j] == strip[j]);
            } else {
                assert(v[j] == v[d + (j - d)]);
            }
        }
    }
    Some(new_slots)
}

/// Trim trailing slots so that at most one starts at or past `max_cursor`,
/// then, if the last slot starts short of that edge, walk on from the id
/// after it up to `last_idx_limit`. `None` when a read aborts the walk.
fn trim_and_top_up<S: AxisSlot, F: Fn(i32) -> Option<i32>>(
    slots: Vec<S>,
    first_id: Ghost<int>,
    frozen_offset: Ghost<int>,
    max_cursor: i32,
    last_idx_limit: i32,
    measure: &F,
) -> (r: Option<Vec<S>>)
    requires
        forall|id: i32| measure.requires((id,)),
        slots@.len() >= 1,
        laid_out(slots@, first_id@, frozen_offset@),
    ensures
        r matches Some(w) ==> {
            &&& w@.len() >= 1
            &&& laid_out(w@, first_id@, frozen_offset@)
            &&& forall|k: int| 0 <= k < w@.len() ==> if k < slots@.len() {
                #[trigger] w@[k] == slots@[k]
            } else {
                measured_slot(*measure, w@[k])
            }
            &&& !(w@.len() >= 2 && w@.last().spec_start() >= max_cursor && w@[w@.len() - 2].spec_start()
                >= max_cursor)
            &&& w@.last().spec_start() >= max_cursor || w@.last().spec_id() >= last_idx_limit
        },
        r is None ==> top_up_aborted(*measure, slots@, max_cursor as int, last_idx_limit as int),
{
    let mut new_slots = slots;
    let ghost initial = new_slots@;
    while new_slots.len() >= 2 && new_slots[new_slots.len() - 1].start() >= max_cursor
        && new_slots[new_slots.len() - 2].start() >= max_cursor
        invariant
            1 <= new_slots@.len() <= initial.len(),
            laid_out(new_slots@, first_id@, frozen_offset@),
            new_slots@ == initial.subrange(0, new_slots@.len() as int),
            new_slots@.len() < initial.len() ==> new_slots@.last().spec_start() >= max_cursor,
        decreases new_slots@.len(),
    {
        let ghost before = new_slots@;
        let _ = new_slots.pop();
        proof {
            assert(new_slots@ =~= before.subrange(0, before.len() - 1));
            lemma_laid_out_prefix(before, first_id@, frozen_offset@, before.len() - 1);
            assert(new_slots@.last() == before[before.len() - 2]);
            assert(new_slots@ =~= initial.subrange(0, new_slots@.len() as int));
        }
    }
    let last_i = new_slots.len() - 1;
    let last_start = new_slots[last_i].start();
    let last_id = new_slots[last_i].id();
    if last_start < max_cursor && last_id < last_idx_limit {
        proof {
            assert(fits_i32(slot_end(new_slots@[last_i as int])));
        }
        let cursor = new_slots[last_i].end();
        let next_id = last_id + 1;
        let ghost before = new_slots@;
        proof {
            assert(before.last() == before[last_i as int]);
            assert(before =~= initial);
        }
        match fill_axis(&mut new_slots, next_id..=last_idx_limit, cursor, Some(max_cursor), measure) {
            Some(_) => {},
            None => {
                proof {
                    let add = new_slots@.skip(before.len() as int);
                    assert(before.last() == before[last_i as int]);
                    assert(top_up_abort_at(*measure, before, max_cursor as int, last_idx_limit as int, add));
                }
                return None;
            },
        }
        proof {
            let add = new_slots@.skip(before.len() as int);
            let v = new_slots@;
            assert(v =~= before + add);
            assert(cursor_after(before, frozen_offset@) == cursor);
            lemma_laid_out_concat(before, add, first_id@, frozen_offset@);
            assert forall|k: int| 0 <= k < v.len() implies if k < initial.len() {
                #[trigger] v[k] == initial[k]
            } else {
                measured_slot(*measure, v[k])
            } by {
                if k < before.len() {
                    assert(v[k] == before[k]);
                } else {
                    assert(v[k] == add[k - before.len()]);
                }
            }
            assert(add.len() >= 1);
            assert(v.last() == add.last());
            if add.len() >= 2 {
                assert(v[v.len() - 2] == add[add.len() - 2]);
            } else {
                assert(v[v.len() - 2] == before.last());
            }
        }
    } else {
        proof {
            assert(new_slots@.last() == new_slots@[last_i as int]);
            assert forall|k: int| 0 <= k < new_slots@.len() implies #[trigger] new_slots@[k] == initial[k] by {}
        }
    }
    Some(new_slots)
}

/// What [`rebuild_axis_slots`] produces for band `prev` rebuilt so that
/// its first id becomes `new_first`: `None` when there is no band, no
/// move, or a move past the band; otherwise `None` only as
/// [`rebuild_aborted`] allows, and any band it returns is laid out from
/// `new_first`, carries the kept extents, and is trimmed and topped up.
pub open spec fn rebuild_outcome<S: AxisSlot, F: Fn(i32) -> Option<i32>>(
    measure: F,
    prev: Seq<S>,
    frozen_offset: int,
    max_cursor: int,
    new_first: int,
    last_limit: int,
    r: Option<Vec<S>>,
) -> bool {
    let n = prev.len() as int;
    let delta = new_first - prev[0].spec_id();
    let d = if delta >= 0 { delta } else { -delta };
    &&& (n == 0 || delta == 0 || d >= n) ==> r is None
    &&& (n > 0 && delta != 0 && d < n && r is None) ==> rebuild_aborted(
        measure,
        prev,
        frozen_offset,
        max_cursor,
        new_first,
        last_limit,
    )
    &&& r matches Some(v) ==> {
        &&& n > 0 && delta != 0 && d < n
        &&& v@.len() >= 1
        &&& laid_out(v@, new_first, frozen_offset)
        &&& rebuilt_from(measure, prev, delta > 0, d, v@)
        &&& !(v@.len() >= 2 && v@.last().spec_start() >= max_cursor && v@[v@.len() - 2].spec_start() >= max_cursor)
        &&& v@.last().spec_start() >= max_cursor || v@.last().spec_id() >= last_limit
    }
}

/// Rebuild a scroll-axis band for a single-axis blit. The kept band's
/// slots carry forward with only their leading edge shifted; the newly
/// revealed strip is walked from the model with [`fill_axis`]. Trailing
/// overflow is trimmed so that at most one slot starts at or past
/// `max_cursor`, then the band is topped up if the shift left its last slot
/// short of that edge.
///
/// `None` when `prev_slots` is empty, the first id does not move, or the
/// shift is at least the band's length; also when a model read aborts one
/// of the walks, or a shifted edge would leave the `i32` range. Partially
/// built geometry is never returned.
pub fn rebuild_axis_slots<S: AxisSlot, F: Fn(i32) -> Option<i32>>(
    prev_slots: &[S],
    frozen_offset: i32,
    max_cursor: i32,
    new_first_idx: i32,
    last_idx_limit: i32,
    measure: F,
) -> (r: Option<Vec<S>>)
    requires
        forall|id: i32| measure.requires((id,)),
        frozen_offset >= 0,
        band_nonneg(prev_slots@),
        prev_slots@.len() > 0 ==> laid_out(prev_slots@, prev_slots@[0].spec_id() as int, frozen_offset as int),
    ensures
        rebuild_outcome(
            measure,
            prev_slots@,
            frozen_offset as int,
            max_cursor as int,
            new_first_idx as int,
            last_idx_limit as int,
            r,
        ),
{
    let n = prev_slots.len();
    if n == 0 {
        return None;
    }
    let old_first_idx = prev_slots[0].id();
    let delta: i64 = new_first_idx as i64 - old_first_idx as i64;
    if delta == 0 {
        return None;
    }
    let d64: i64 = if delta > 0 { delta } else { -delta };
    if d64 as u64 >= n as u64 {
        return None;
    }
    let d = d64 as usize;
    let ghost fwd = delta > 0;
    let kept = if delta > 0 {
        kept_forward(prev_slots, d, frozen_offset)
    } else {
        match strip_then_kept(prev_slots, d, frozen_offset, &measure) {
            Some(v) => v,
            None => {
                return None;
            },
        }
    };
    let ghost kv = kept@;
    proof {
        assert forall|k: int| 0 <= k < kv.len() implies (if fwd {
            if k < n - d {
                (#[trigger] kv[k]).spec_extent() == prev_slots@[d + k].spec_extent()
            } else {
                measured_slot(measure, kv[k])
            }
        } else {
            if d <= k < n {
                kv[k].spec_extent() == prev_slots@[k - d].spec_extent()
            } else {
                measured_slot(measure, kv[k])
            }
        }) by {}
        assert(rebuilt_from(measure, prev_slots@, fwd, d as int, kv));
        assert(shifted_band(measure, prev_slots@, frozen_offset as int, new_first_idx as int, kv));
    }
    match trim_and_top_up(kept, Ghost(new_first_idx as int), Ghost(frozen_offset as int), max_cursor, last_idx_limit, &measure) {
        Some(w) => {
            proof {
                assert forall|k: int| 0 <= k < w@.len() implies (if fwd {
                    if k < n - d {
                        (#[trigger] w@[k]).spec_extent() == prev_slots@[d + k].spec_extent()
                    } else {
                        measured_slot(measure, w@[k])
                    }
                } else {
                    if d <= k < n {
                        w@[k].spec_extent() == prev_slots@[k - d].spec_extent()
                    } else {
                        measured_slot(measure, w@[k])
                    }
                }) by {
                    if k < kv.len() {
                        assert(w@[k] == kv[k]);
                    }
                }
            }
            Some(w)
        },
        None => {
            proof {
                assert(top_up_aborted(measure, kv, max_cursor as int, last_idx_limit as int));
            }
            None
        },
    }
}
impl PaneSet {
    /// [`probe_axis_shift`] over the row scroll band; `measure` reports row
    /// heights.
    pub fn probe_row_shift<F: Fn(i32) -> Option<i32>>(&self, new_top: i32, pane_y: i32, pane_h: i32, measure: F) -> (r:
        Option<(i32, ShiftDir)>)
        requires
            forall|id: i32| measure.requires((id,)),
            pane_y >= 0,
            self.rows.nonneg(),
        ensures
            probe_outcome(measure, self.rows.scroll@, new_top as int, pane_y as int, pane_h as int, r),
    {
        probe_axis_shift(self.rows.scroll.as_slice(), new_top, pane_y, pane_h, measure)
    }

    /// [`probe_axis_shift`] over the column scroll band; `measure` reports
    /// column widths.
    pub fn probe_col_shift<F: Fn(i32) -> Option<i32>>(&self, new_left: i32, pane_x: i32, pane_w: i32, measure: F) -> (r:
        Option<(i32, ShiftDir)>)
        requires
            forall|id: i32| measure.requires((id,)),
            pane_x >= 0,
            self.cols.nonneg(),
        ensures
            probe_outcome(measure, self.cols.scroll@, new_left as int, pane_x as int, pane_w as int, r),
    {
        probe_axis_shift(self.cols.scroll.as_slice(), new_left, pane_x, pane_w, measure)
    }

    /// The row scroll band rebuilt for a row scroll to `new_top`, walking
    /// newly revealed rows up to the axis's last id and trimming at
    /// `max_cursor` (the canvas height).
    pub fn rebuild_rows_for_row_scroll<F: Fn(i32) -> Option<i32>>(&self, new_top: i32, max_cursor: i32, measure: F) -> (r:
        Option<Vec<RowSlot>>)
        requires
            forall|id: i32| measure.requires((id,)),
            self.rows.frozen_offset >= 0,
            self.rows.nonneg(),
            self.rows.scroll_contiguous(),
        ensures
            rebuild_outcome(
                measure,
                self.rows.scroll@,
                self.rows.frozen_offset as int,
                max_cursor as int,
                new_top as int,
                self.rows.last_id as int,
                r,
            ),
    {
        rebuild_axis_slots(
            self.rows.scroll.as_slice(),
            self.rows.frozen_offset,
            max_cursor,
            new_top,
            self.rows.last_id,
            measure,
        )
    }

    /// Column mirror of [`PaneSet::rebuild_rows_for_row_scroll`].
    pub fn rebuild_cols_for_col_scroll<F: Fn(i32) -> Option<i32>>(&self, new_left: i32, max_cursor: i32, measure: F) -> (r:
        Option<Vec<ColSlot>>)
        requires
            forall|id: i32| measure.requires((id,)),
            self.cols.frozen_offset >= 0,
            self.cols.nonneg(),
            self.cols.scroll_contiguous(),
        ensures
            rebuild_outcome(
                measure,
                self.cols.scroll@,
                self.cols.frozen_offset as int,
                max_cursor as int,
                new_left as int,
                self.cols.last_id as int,
                r,
            ),
    {
        rebuild_axis_slots(
            self.cols.scroll.as_slice(),
            self.cols.frozen_offset,
            max_cursor,
            new_left,
            self.cols.last_id,
            measure,
        )
    }
}

/// The plan an accepted probe yields: `probe` is what the probe decided,
/// the plan the scroll of `axis` with the given panes.
pub open spec fn plan_of_probe(
    probe: Option<(i32, ShiftDir)>,
    axis: Axis,
    main_pane: AxisRange,
    cross_pane: AxisRange,
    canvas_main: int,
) -> Option<BlitPlan> {
    match probe {
        Some((shift, dir)) => Some(axis_scroll_plan(axis, main_pane, cross_pane, shift as int, dir, canvas_main)),
        None => None,
    }
}

/// Blit plan for a row scroll of `prev` to `new_top`, if the kept band
/// survives. The scroll pane runs from the frozen offsets to the canvas
/// edge (the canvas extent, not the last slot, which may overflow the
/// canvas); the cross range spans from the cell-area origin to the canvas
/// edge. `None` when the pane is empty or the probe rejects the shift.
pub fn try_blit_rows<F: Fn(i32) -> Option<i32>>(prev: &Chrome, new_top: i32, measure: F) -> (r: Option<BlitPlan>)
    requires
        forall|id: i32| measure.requires((id,)),
        prev.wf(),
    ensures
        ({
            let w = prev.logical_width as int;
            let h = prev.logical_height as int;
            let pane_x = prev.pane_set.cols.frozen_offset as int;
            let pane_y = prev.pane_set.rows.frozen_offset as int;
            &&& (w - pane_x <= 0 || h - pane_y <= 0) ==> r is None
            &&& (w - pane_x > 0 && h - pane_y > 0) ==> exists|probe: Option<(i32, ShiftDir)>|
                #[trigger] probe_outcome(measure, prev.pane_set.rows.scroll@, new_top as int, pane_y, h - pane_y, probe)
                    && r == plan_of_probe(
                    probe,
                    Axis::Row,
                    AxisRange { origin: pane_y as i32, size: (h - pane_y) as i32 },
                    AxisRange { origin: prev.cell_origin.x, size: (w - prev.cell_origin.x) as i32 },
                    h,
                )
        }),
{
    let (canvas_w, canvas_h) = prev.canvas_size();
    let pane_x = prev.pane_set.cols.frozen_offset;
    let pane_y = prev.pane_set.rows.frozen_offset;
    let pane_w = canvas_w - pane_x;
    let pane_h = canvas_h - pane_y;
    if pane_w <= 0 || pane_h <= 0 {
        return None;
    }
    let probe = prev.pane_set.probe_row_shift(new_top, pane_y, pane_h, measure);
    match probe {
        Some((shift_px, dir)) => Some(
            BlitPlan::for_axis_scroll(
                Axis::Row,
                AxisRange { origin: pane_y, size: pane_h },
                AxisRange { origin: prev.cell_origin.x, size: canvas_w - prev.cell_origin.x },
                shift_px,
                dir,
                canvas_h,
            ),
        ),
        None => None,
    }
}

/// Column mirror of [`try_blit_rows`].
pub fn try_blit_cols<F: Fn(i32) -> Option<i32>>(prev: &Chrome, new_left: i32, measure: F) -> (r: Option<BlitPlan>)
    requires
        forall|id: i32| measure.requires((id,)),
        prev.wf(),
    ensures
        ({
            let w = prev.logical_width as int;
            let h = prev.logical_height as int;
            let pane_x = prev.pane_set.cols.frozen_offset as int;
            let pane_y = prev.pane_set.rows.frozen_offset as int;
            &&& (w - pane_x <= 0 || h - pane_y <= 0) ==> r is None
            &&& (w - pane_x > 0 && h - pane_y > 0) ==> exists|probe: Option<(i32, ShiftDir)>|
                #[trigger] probe_outcome(measure, prev.pane_set.cols.scroll@, new_left as int, pane_x, w - pane_x, probe)
                    && r == plan_of_probe(
                    probe,
                    Axis::Column,
                    AxisRange { origin: pane_x as i32, size: (w - pane_x) as i32 },
                    AxisRange { origin: prev.cell_origin.y, size: (h - prev.cell_origin.y) as i32 },
                    w,
                )
        }),
{
    let (canvas_w, canvas_h) = prev.canvas_size();
    let pane_x = prev.pane_set.cols.frozen_offset;
    let pane_y = prev.pane_set.rows.frozen_offset;
    let pane_w = canvas_w - pane_x;
    let pane_h = canvas_h - pane_y;
    if pane_w <= 0 || pane_h <= 0 {
        return None;
    }
    let probe = prev.pane_set.probe_col_shift(new_left, pane_x, pane_w, measure);
    match probe {
        Some((shift_px, dir)) => Some(
            BlitPlan::for_axis_scroll(
                Axis::Column,
                AxisRange { origin: pane_x, size: pane_w },
                AxisRange { origin: prev.cell_origin.y, size: canvas_h - prev.cell_origin.y },
                shift_px,
                dir,
                canvas_w,
            ),
        ),
        None => None,
    }
}

/// Row ids of the band never decrease down the band.
pub open spec fn rows_ascending(rows: Seq<RowSlot>) -> bool {
    forall|i: int, j: int| 0 <= i <= j < rows.len() ==> #[trigger] rows[i].row <= #[trigger] rows[j].row
}

/// A row-header strip `w` wide fits the label of every row of the band:
/// it is at least the width each row's decimal label needs.
pub open spec fn fits_every_row_label(w: int, rows: Seq<RowSlot>) -> bool {
    forall|k: int| 0 <= k < rows.len() ==> w >= header_width_for_digits(decimal_digits(imax(#[trigger] rows[k].row as int, 1)))
}

/// The row-header thickness of a shown strip over a band whose row ids
/// ascend fits every visible row's label, not only the first one's: no
/// label below the top row can be wider than the strip.
pub proof fn lemma_thickness_fits_visible_rows(scroll_rows: Seq<RowSlot>, frozen_rows_count: int, new_top: int)
    ensures
        rows_ascending(scroll_rows) ==> fits_every_row_label(
            header_width_for_digits(decimal_digits(imax(gate_row(scroll_rows, frozen_rows_count, new_top), 1))),
            scroll_rows,
        ),
{
    if rows_ascending(scroll_rows) {
        let g = imax(gate_row(scroll_rows, frozen_rows_count, new_top), 1);
        assert forall|k: int| 0 <= k < scroll_rows.len() implies header_width_for_digits(decimal_digits(g))
            >= header_width_for_digits(decimal_digits(imax(#[trigger] scroll_rows[k].row as int, 1))) by {
            let last = scroll_rows.len() - 1;
            assert(scroll_rows[k].row <= scroll_rows[last].row);
            lemma_decimal_digits_monotone(imax(scroll_rows[k].row as int, 1), g);
            lemma_header_width_monotone(
                decimal_digits(imax(scroll_rows[k].row as int, 1)),
                decimal_digits(g),
            );
        }
    }
}

/// The row whose label width the blit gate checks: the last row of the
/// scrolled band, or, for an empty band, the first scroll id.
pub open spec fn gate_row(scroll_rows: Seq<RowSlot>, frozen_rows_count: int, new_top: int) -> int {
    if scroll_rows.len() > 0 {
        scroll_rows.last().row as int
    } else {
        imax(frozen_rows_count + 1, new_top)
    }
}

/// Row-header thickness implied by the last visible row's label: the
/// value the blit gate compares against the previous frame's. An empty
/// band falls back to the first scroll id.
pub fn blit_row_header_thickness(scroll_rows: &[RowSlot], frozen_rows_count: i32, new_top: i32) -> (w: i32)
    requires
        frozen_rows_count < i32::MAX,
    ensures
        w == header_width_for_digits(decimal_digits(imax(gate_row(scroll_rows@, frozen_rows_count as int, new_top as int), 1))),
        rows_ascending(scroll_rows@) ==> fits_every_row_label(w as int, scroll_rows@),
{
    proof {
        lemma_thickness_fits_visible_rows(scroll_rows@, frozen_rows_count as int, new_top as int);
    }
    let last_visible_row = if scroll_rows.len() > 0 {
        scroll_rows[scroll_rows.len() - 1].row
    } else {
        let after = frozen_rows_count + 1;
        if after >= new_top { after } else { new_top }
    };
    measure_row_header_width(last_visible_row)
}

} // verus!
