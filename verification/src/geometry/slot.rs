//! Per-axis visible slots on the painted frame.
//!
//! A slot carries the index, the absolute canvas coordinate of its leading
//! edge, and its extent. `PaneSet` holds one [`AxisSlots`] per axis (frozen
//! and scrollable bands); every pixel<->cell query reads them directly.

use vstd::prelude::*;

use crate::address::{iabs, imax, imin};
use crate::geometry::constants::FROZEN_SEP;
use crate::geometry::pixel_rect::fits_i32;

verus! {

/// One row of the painted frame.
#[derive(Clone, Copy, Debug)]
pub struct RowSlot {
    pub row: i32,
    /// Absolute canvas Y, not relative to any pane.
    pub top: i32,
    pub height: i32,
}

/// One column of the painted frame.
#[derive(Clone, Copy, Debug)]
pub struct ColSlot {
    pub col: i32,
    /// Absolute canvas X, not relative to any pane.
    pub left: i32,
    pub width: i32,
}

/// Axis-symmetric slot view. Lets every walk over the slot vecs share one
/// implementation regardless of axis. `end` is `start + extent`, the far
/// edge (row bottom / column right).
pub trait AxisSlot: Sized {
    spec fn spec_id(&self) -> i32;

    spec fn spec_start(&self) -> i32;

    spec fn spec_extent(&self) -> i32;

    fn new(id: i32, start: i32, extent: i32) -> (s: Self)
        ensures
            s.spec_id() == id,
            s.spec_start() == start,
            s.spec_extent() == extent,
    ;

    fn id(&self) -> (r: i32)
        ensures
            r == self.spec_id(),
    ;

    fn start(&self) -> (r: i32)
        ensures
            r == self.spec_start(),
    ;

    fn extent(&self) -> (r: i32)
        ensures
            r == self.spec_extent(),
    ;

    fn end(&self) -> (r: i32)
        requires
            fits_i32(self.spec_start() + self.spec_extent()),
        ensures
            r == self.spec_start() + self.spec_extent(),
    {
        self.start() + self.extent()
    }
}

impl AxisSlot for RowSlot {
    open spec fn spec_id(&self) -> i32 {
        self.row
    }

    open spec fn spec_start(&self) -> i32 {
        self.top
    }

    open spec fn spec_extent(&self) -> i32 {
        self.height
    }

    fn new(id: i32, start: i32, extent: i32) -> (s: Self) {
        RowSlot { row: id, top: start, height: extent }
    }

    fn id(&self) -> (r: i32) {
        self.row
    }

    fn start(&self) -> (r: i32) {
        self.top
    }

    fn extent(&self) -> (r: i32) {
        self.height
    }
}

impl AxisSlot for ColSlot {
    open spec fn spec_id(&self) -> i32 {
        self.col
    }

    open spec fn spec_start(&self) -> i32 {
        self.left
    }

    open spec fn spec_extent(&self) -> i32 {
        self.width
    }

    fn new(id: i32, start: i32, extent: i32) -> (s: Self) {
        ColSlot { col: id, left: start, width: extent }
    }

    fn id(&self) -> (r: i32) {
        self.col
    }

    fn start(&self) -> (r: i32) {
        self.left
    }

    fn extent(&self) -> (r: i32) {
        self.width
    }
}

/// Far edge of a slot, `start + extent`.
pub open spec fn slot_end<S: AxisSlot>(s: S) -> int {
    s.spec_start() + s.spec_extent()
}

/// Every slot's far edge is representable as `i32`.
pub open spec fn ends_fit<S: AxisSlot>(s: Seq<S>) -> bool {
    forall|i: int| 0 <= i < s.len() ==> fits_i32(#[trigger] slot_end(s[i]))
}

/// Ids of `s` run `first, first + 1, ...` with no gap.
pub open spec fn dense_from<S: AxisSlot>(s: Seq<S>, first: int) -> bool {
    forall|i: int| 0 <= i < s.len() ==> (#[trigger] s[i]).spec_id() == first + i
}

/// The ids of `s` are dense and contiguous (vacuous for an empty band).
pub open spec fn dense<S: AxisSlot>(s: Seq<S>) -> bool {
    s.len() > 0 ==> dense_from(s, s[0].spec_id() as int)
}

/// First non-frozen visible id along an axis: the larger of
/// `frozen_count + 1` and the viewport's scrolled-to id.
pub open spec fn spec_scroll_first(frozen_count: int, view_first: int) -> int {
    imax(frozen_count + 1, view_first)
}

/// First non-frozen visible id along an axis: the larger of
/// `frozen_count + 1` (the id immediately past the frozen band) and the
/// viewport's scrolled-to id. The scroll band starts where the frozen band
/// ends or where the user scrolled to, whichever is further.
pub fn scroll_first(frozen_count: i32, view_first: i32) -> (r: i32)
    requires
        frozen_count < i32::MAX,
    ensures
        r == spec_scroll_first(frozen_count as int, view_first as int),
{
    let after = frozen_count + 1;
    if after >= view_first {
        after
    } else {
        view_first
    }
}

/// The slot for `id` across a frozen+scroll pair: frozen ids index from 1;
/// scroll ids index from the first scroll slot's id.
pub open spec fn spec_slot_at<S: AxisSlot>(frozen: Seq<S>, scroll: Seq<S>, id: int) -> Option<S> {
    if id <= frozen.len() {
        if 1 <= id {
            Some(frozen[id - 1])
        } else {
            None
        }
    } else if scroll.len() == 0 {
        None
    } else if 0 <= id - scroll[0].spec_id() < scroll.len() {
        Some(scroll[id - scroll[0].spec_id()])
    } else {
        None
    }
}

/// Locate a slot by `id` across the frozen+scroll pair. Frozen ids index
/// from 1; scroll ids index from the first slot's id (the scroll band starts
/// past whatever has been scrolled off-screen). Requires the scroll band's
/// ids to be dense and contiguous.
pub fn slot_at<'a, S: AxisSlot>(frozen: &'a [S], scroll: &'a [S], id: i32) -> (r: Option<&'a S>)
    requires
        frozen@.len() <= i32::MAX,
        dense(scroll@),
    ensures
        match spec_slot_at(frozen@, scroll@, id as int) {
            Some(s) => r == Some(&s),
            None => r is None,
        },
{
    let frozen_n = frozen.len() as i32;
    if id <= frozen_n {
        if id >= 1 {
            Some(&frozen[(id - 1) as usize])
        } else {
            None
        }
    } else {
        if scroll.len() == 0 {
            return None;
        }
        let first = scroll[0].id();
        let k: i64 = id as i64 - first as i64;
        if 0 <= k && (k as u64) < (scroll.len() as u64) {
            let s = &scroll[k as usize];
            proof {
                assert(s.spec_id() == id);
            }
            Some(s)
        } else {
            None
        }
    }
}

/// First scroll-band id, or `1` when the band is empty.
pub open spec fn spec_top_id<S: AxisSlot>(scroll: Seq<S>) -> int {
    if scroll.len() == 0 { 1 } else { scroll[0].spec_id() as int }
}

/// Last scroll-band id, or `1` when the band is empty.
pub open spec fn spec_last_visible_id<S: AxisSlot>(scroll: Seq<S>) -> int {
    if scroll.len() == 0 { 1 } else { scroll.last().spec_id() as int }
}

/// First scroll-band id, or `1` when the band is empty (the fresh-frame
/// default before any scroll happens).
pub fn top_id<S: AxisSlot>(scroll: &[S]) -> (r: i32)
    ensures
        r == spec_top_id(scroll@),
{
    if scroll.len() == 0 {
        1
    } else {
        scroll[0].id()
    }
}

/// Last visible scroll-band id, falling back to [`top_id`] when the band is
/// empty so callers always get a valid id.
pub fn last_visible_id<S: AxisSlot>(scroll: &[S]) -> (r: i32)
    ensures
        r == spec_last_visible_id(scroll@),
{
    if scroll.len() == 0 {
        top_id(scroll)
    } else {
        scroll[scroll.len() - 1].id()
    }
}

/// Whether `pixel` falls in the half-open `[start, end)` of slot `s`.
pub open spec fn covers_pixel<S: AxisSlot>(s: S, pixel: int) -> bool {
    s.spec_start() <= pixel < slot_end(s)
}

/// Id of the first slot of `s`, from position `i` on, whose half-open pixel
/// span covers `pixel`.
pub open spec fn first_covering<S: AxisSlot>(s: Seq<S>, pixel: int, i: int) -> Option<i32>
    decreases s.len() - i,
{
    if i < 0 || i >= s.len() {
        None
    } else if covers_pixel(s[i], pixel) {
        Some(s[i].spec_id())
    } else {
        first_covering(s, pixel, i + 1)
    }
}

/// Some slot of `s` with id `id` covers `pixel`.
pub open spec fn covered_by<S: AxisSlot>(s: Seq<S>, pixel: int, id: i32) -> bool {
    exists|k: int| 0 <= k < s.len() && covers_pixel(#[trigger] s[k], pixel) && s[k].spec_id() == id
}

/// No slot of `s` covers `pixel`.
pub open spec fn uncovered<S: AxisSlot>(s: Seq<S>, pixel: int) -> bool {
    forall|k: int| 0 <= k < s.len() ==> !covers_pixel(#[trigger] s[k], pixel)
}

/// A pixel-to-id scan answers the id of a slot that covers the pixel, and
/// answers nothing only when no slot does.
pub proof fn lemma_first_covering<S: AxisSlot>(s: Seq<S>, pixel: int, i: int)
    requires
        0 <= i <= s.len(),
    ensures
        first_covering(s, pixel, i) matches Some(id) ==> exists|k: int|
            i <= k < s.len() && covers_pixel(#[trigger] s[k], pixel) && s[k].spec_id() == id,
        first_covering(s, pixel, i) is None ==> forall|k: int| i <= k < s.len() ==> !covers_pixel(#[trigger] s[k], pixel),
    decreases s.len() - i,
{
    if i < s.len() {
        lemma_first_covering(s, pixel, i + 1);
    }
}

/// A trailing-edge snap answers the id of a slot whose far edge lies within
/// `tolerance` of the pixel.
pub proof fn lemma_boundary_walk<S: AxisSlot>(s: Seq<S>, pixel: int, tolerance: int, i: int)
    requires
        0 <= i <= s.len(),
    ensures
        boundary_walk(s, pixel, tolerance, i) matches Some(id) ==> exists|k: int|
            i <= k < s.len() && #[trigger] s[k].spec_id() == id && -tolerance <= slot_end(s[k]) - pixel <= tolerance,
    decreases s.len() - i,
{
    if i < s.len() {
        lemma_boundary_walk(s, pixel, tolerance, i + 1);
    }
}

/// Linear scan, frozen band then scroll band, for the slot covering `pixel`.
/// Maps a canvas Y/X back to a row/column. Slot bounds are half-open: the
/// trailing pixel belongs to the next slot.
pub fn pixel_to_id<S: AxisSlot>(frozen: &[S], scroll: &[S], pixel: i32) -> (r: Option<i32>)
    ensures
        r == first_covering(frozen@ + scroll@, pixel as int, 0),
{
    let ghost all = frozen@ + scroll@;
    let mut i: usize = 0;
    while i < frozen.len()
        invariant
            all == frozen@ + scroll@,
            0 <= i <= frozen@.len(),
            first_covering(all, pixel as int, 0) == first_covering(all, pixel as int, i as int),
        decreases frozen.len() - i,
    {
        let s = &frozen[i];
        let end: i64 = s.start() as i64 + s.extent() as i64;
        proof {
            assert(all[i as int] == frozen@[i as int]);
        }
        if s.start() <= pixel && (pixel as i64) < end {
            return Some(s.id());
        }
        i = i + 1;
    }
    let mut j: usize = 0;
    while j < scroll.len()
        invariant
            all == frozen@ + scroll@,
            0 <= j <= scroll@.len(),
            first_covering(all, pixel as int, 0) == first_covering(
                all,
                pixel as int,
                frozen@.len() + j,
            ),
        decreases scroll.len() - j,
    {
        let s = &scroll[j];
        let end: i64 = s.start() as i64 + s.extent() as i64;
        proof {
            assert(all[frozen@.len() + j] == scroll@[j as int]);
        }
        if s.start() <= pixel && (pixel as i64) < end {
            return Some(s.id());
        }
        j = j + 1;
    }
    None
}

/// The trailing-edge snap walk from position `i` on: the first slot whose
/// end lies within `tolerance` of `pixel` wins; the walk stops at the first
/// slot whose end is past `pixel + tolerance`.
pub open spec fn boundary_walk<S: AxisSlot>(s: Seq<S>, pixel: int, tolerance: int, i: int) -> Option<i32>
    decreases s.len() - i,
{
    if i < 0 || i >= s.len() {
        None
    } else if iabs(slot_end(s[i]) - pixel) <= tolerance {
        Some(s[i].spec_id())
    } else if slot_end(s[i]) > pixel + tolerance {
        None
    } else {
        boundary_walk(s, pixel, tolerance, i + 1)
    }
}

/// The scroll band starts at or after the frozen band ends (vacuous when
/// either band is empty).
pub open spec fn seam_ok<S: AxisSlot>(frozen: Seq<S>, scroll: Seq<S>) -> bool {
    frozen.len() > 0 && scroll.len() > 0 ==> scroll[0].spec_start() >= slot_end(frozen.last())
}

/// Snap `pixel` to a slot's trailing edge when it falls within `tolerance`.
/// Breaks once a slot's end is past the tolerance band.
///
/// Tie-break: when two adjacent edges both fall within `tolerance`, the
/// first in iteration order wins, not the nearest. The frozen-then-scroll
/// chain is treated as one ascending pixel space, which requires the scroll
/// band to start at or after the frozen band ends.
pub fn boundary_at<S: AxisSlot>(frozen: &[S], scroll: &[S], pixel: i32, tolerance: i32) -> (r:
    Option<i32>)
    requires
        seam_ok(frozen@, scroll@),
    ensures
        r == boundary_walk(frozen@ + scroll@, pixel as int, tolerance as int, 0),
{
    let ghost all = frozen@ + scroll@;
    let reach: i64 = pixel as i64 + tolerance as i64;
    let mut i: usize = 0;
    while i < frozen.len()
        invariant
            all == frozen@ + scroll@,
            reach == pixel + tolerance,
            0 <= i <= frozen@.len(),
            boundary_walk(all, pixel as int, tolerance as int, 0) == boundary_walk(
                all,
                pixel as int,
                tolerance as int,
                i as int,
            ),
        decreases frozen.len() - i,
    {
        let s = &frozen[i];
        let end: i64 = s.start() as i64 + s.extent() as i64;
        proof {
            assert(all[i as int] == frozen@[i as int]);
        }
        let dist: i64 = if end >= pixel as i64 { end - pixel as i64 } else { pixel as i64 - end };
        if dist <= tolerance as i64 {
            return Some(s.id());
        }
        if end > reach {
            return None;
        }
        i = i + 1;
    }
    let mut j: usize = 0;
    while j < scroll.len()
        invariant
            all == frozen@ + scroll@,
            reach == pixel + tolerance,
            0 <= j <= scroll@.len(),
            boundary_walk(all, pixel as int, tolerance as int, 0) == boundary_walk(
                all,
                pixel as int,
                tolerance as int,
                frozen@.len() + j,
            ),
        decreases scroll.len() - j,
    {
        let s = &scroll[j];
        let end: i64 = s.start() as i64 + s.extent() as i64;
        proof {
            assert(all[frozen@.len() + j] == scroll@[j as int]);
        }
        let dist: i64 = if end >= pixel as i64 { end - pixel as i64 } else { pixel as i64 - end };
        if dist <= tolerance as i64 {
            return Some(s.id());
        }
        if end > reach {
            return None;
        }
        j = j + 1;
    }
    None
}

/// `std::ops::RangeInclusive::is_empty`: true when the range yields no
/// item, which is the case once it has been iterated to exhaustion or when
/// its start lies past its end.
#[verifier::external_body]
fn range_is_empty(range: &std::ops::RangeInclusive<i32>) -> (b: bool)
    ensures
        b == (range@.exhausted || range@.start > range@.end),
{
    range.is_empty()
}

/// `std::ops::RangeInclusive::start`: the inclusive lower bound, which the
/// documentation leaves unspecified once the range is exhausted.
#[verifier::external_body]
fn range_start(range: &std::ops::RangeInclusive<i32>) -> (s: i32)
    ensures
        !range@.exhausted ==> s == range@.start,
{
    *range.start()
}

/// `std::ops::RangeInclusive::end`: the inclusive upper bound, which the
/// documentation leaves unspecified once the range is exhausted.
#[verifier::external_body]
fn range_end(range: &std::ops::RangeInclusive<i32>) -> (e: i32)
    ensures
        !range@.exhausted ==> e == range@.end,
{
    *range.end()
}

/// Slots laid end to end from `start`, with ids `first, first + 1, ...`
/// and every far edge representable.
pub open spec fn laid_out<S: AxisSlot>(new: Seq<S>, first: int, start: int) -> bool {
    &&& dense_from(new, first)
    &&& (new.len() > 0 ==> new[0].spec_start() == start)
    &&& forall|k: int| 0 <= k < new.len() - 1 ==> #[trigger] new[k + 1].spec_start() == slot_end(new[k])
    &&& ends_fit(new)
}

/// Where the next slot after `new` would sit: the far edge of the last
/// slot, or `start` when nothing was laid out.
pub open spec fn cursor_after<S: AxisSlot>(new: Seq<S>, start: int) -> int {
    if new.len() == 0 { start } else { slot_end(new.last()) }
}

/// The walk breaks after a slot whose leading edge has reached the cursor
/// ceiling.
pub open spec fn stops_walk<S: AxisSlot>(max_cursor: Option<i32>, s: S) -> bool {
    match max_cursor {
        Some(m) => s.spec_start() >= m,
        None => false,
    }
}

/// Every extent in `new` is one that `measure` can return for its id.
pub open spec fn measured_by<S: AxisSlot, F: Fn(i32) -> Option<i32>>(measure: F, new: Seq<S>) -> bool {
    forall|k: int| 0 <= k < new.len() ==> call_ensures(measure, (#[trigger] new[k].spec_id(),), Some(new[k].spec_extent()))
}

/// Where the scroll band starts: past the frozen band's end and, when
/// there are frozen slots, the separator after them.
pub open spec fn scroll_band_offset(frozen_end: int, frozen_count: int) -> int {
    frozen_end + if frozen_count > 0 { FROZEN_SEP as int } else { 0 }
}

/// What [`fill_axis`] does to `before`, giving `after`: it appends the
/// walked slots, laid end to end from `start` with the range's ids, each
/// measured; only the last may have reached `max_cursor`. An empty range
/// appends nothing and answers `start`. Otherwise the answer is the
/// breaking slot's leading edge, or the cursor past a completed walk, or
/// `None` when the read for the next id failed or its extent would push the
/// cursor out of `i32`.
pub open spec fn walk_outcome<S: AxisSlot, F: Fn(i32) -> Option<i32>>(
    measure: F,
    before: Seq<S>,
    after: Seq<S>,
    range: vstd::std_specs::range::RangeInclusiveView<i32>,
    start: int,
    max_cursor: Option<i32>,
    r: Option<i32>,
) -> bool {
    let new = after.skip(before.len() as int);
    let empty = range.exhausted || range.start > range.end;
    let count = range.end - range.start + 1;
    &&& after.len() >= before.len()
    &&& after.subrange(0, before.len() as int) == before
    &&& laid_out(new, range.start as int, start)
    &&& measured_by(measure, new)
    &&& forall|k: int| 0 <= k < new.len() - 1 ==> !stops_walk(max_cursor, #[trigger] new[k])
    &&& empty ==> new.len() == 0 && r == Some(start as i32)
    &&& !empty ==> match r {
        Some(c) => if new.len() > 0 && stops_walk(max_cursor, new.last()) {
            c == new.last().spec_start()
        } else {
            new.len() == count && c == cursor_after(new, start)
        },
        None => new.len() < count && (call_ensures(measure, ((range.start + new.len()) as i32,), None)
            || exists|e: i32|
            call_ensures(measure, ((range.start + new.len()) as i32,), Some(e)) && !fits_i32(
                cursor_after(new, start) + e,
            )),
    }
}

/// Walk an inclusive `range` starting at canvas coordinate `start`, push one
/// slot per id, and break **post-push** when the slot's leading edge has
/// reached `max_cursor`. Returns `Some(cursor)`: the cursor past the last
/// accepted slot (where the next slot would sit), or the breaking slot's
/// leading edge. `None` when `measure` aborts the walk (a model read failed
/// or an extent was invalid) or when a slot end overflows; an overflowing
/// slot is never stored. The caller must not commit the partially-built
/// geometry.
///
/// `max_cursor = None` disables the break, used for the frozen band which
/// always paints regardless of viewport size.
pub fn fill_axis<S: AxisSlot, F: Fn(i32) -> Option<i32>>(
    slots: &mut Vec<S>,
    range: std::ops::RangeInclusive<i32>,
    start: i32,
    max_cursor: Option<i32>,
    measure: F,
) -> (r: Option<i32>)
    requires
        forall|id: i32| measure.requires((id,)),
    ensures
        walk_outcome(measure, old(slots)@, final(slots)@, range@, start as int, max_cursor, r),
{
    let ghost old_len = slots@.len() as int;
    let mut cursor = start;
    if range_is_empty(&range) {
        proof {
            assert(slots@.skip(old_len).len() == 0);
            assert(slots@.subrange(0, old_len) =~= slots@);
        }
        return Some(cursor);
    }
    let first = range_start(&range);
    let last = range_end(&range);
    let mut id: i64 = first as i64;
    proof {
        assert(slots@.subrange(0, old_len) =~= old(slots)@);
        assert(slots@.skip(old_len).len() == 0);
    }
    while id <= last as i64
        invariant
            forall|i: i32| measure.requires((i,)),
            !range@.exhausted,
            first == range@.start,
            last == range@.end,
            first <= last,
            first <= id <= last + 1,
            slots@.len() >= old_len,
            old_len == old(slots)@.len(),
            slots@.subrange(0, old_len) == old(slots)@,
            slots@.skip(old_len).len() == id - first,
            laid_out(slots@.skip(old_len), first as int, start as int),
            measured_by(measure, slots@.skip(old_len)),
            cursor == cursor_after(slots@.skip(old_len), start as int),
            forall|k: int|
                0 <= k < slots@.skip(old_len).len() ==> !stops_walk(
                    max_cursor,
                    #[trigger] slots@.skip(old_len)[k],
                ),
        decreases last - id + 1,
    {
        let ghost before = slots@.skip(old_len);
        let ghost pre = slots@;
        let ext = match measure(id as i32) {
            Some(e) => e,
            None => {
                return None;
            },
        };
        let end = match cursor.checked_add(ext) {
            Some(e) => e,
            None => {
                return None;
            },
        };
        let slot = S::new(id as i32, cursor, ext);
        slots.push(slot);
        proof {
            let after = slots@.skip(old_len);
            assert(after =~= before.push(slot));
            assert(slots@.subrange(0, old_len) =~= pre.subrange(0, old_len));
            assert forall|k: int| 0 <= k < after.len() - 1 implies #[trigger] after[k + 1].spec_start()
                == slot_end(after[k]) by {
                if k + 1 < before.len() {
                    assert(after[k + 1] == before[k + 1]);
                    assert(after[k] == before[k]);
                }
            }
            assert(measured_by(measure, after)) by {
                assert forall|k: int| 0 <= k < after.len() implies call_ensures(
                    measure,
                    (#[trigger] after[k].spec_id(),),
                    Some(after[k].spec_extent()),
                ) by {
                    if k < before.len() {
                        assert(after[k] == before[k]);
                    }
                }
            }
        }
        match max_cursor {
            Some(m) => {
                if cursor >= m {
                    return Some(cursor);
                }
            },
            None => {},
        }
        cursor = end;
        id = id + 1;
    }
    Some(cursor)
}

/// Covered pixel span of a frozen band (ids `1..=len`, by position) within
/// the id interval `[lo, hi]`.
pub open spec fn spec_frozen_span<S: AxisSlot>(frozen: Seq<S>, lo: int, hi: int) -> Option<(i32, i32)> {
    if frozen.len() == 0 || hi < 1 || lo > frozen.len() {
        None
    } else {
        Some(
            (
                frozen[imax(lo, 1) - 1].spec_start(),
                slot_end(frozen[imin(hi, frozen.len() as int) - 1]) as i32,
            ),
        )
    }
}

/// Covered pixel span of a dense scroll band within the id interval
/// `[lo, hi]`.
pub open spec fn spec_scroll_span<S: AxisSlot>(scroll: Seq<S>, lo: int, hi: int) -> Option<(i32, i32)> {
    if scroll.len() == 0 {
        None
    } else {
        let first = scroll[0].spec_id() as int;
        let last = scroll.last().spec_id() as int;
        if hi < first || lo > last {
            None
        } else {
            Some(
                (
                    scroll[imax(lo, first) - first].spec_start(),
                    slot_end(scroll[imin(hi, last) - first]) as i32,
                ),
            )
        }
    }
}

/// Union of two optional pixel spans: the lower start and the higher end.
pub open spec fn span_union(a: Option<(i32, i32)>, b: Option<(i32, i32)>) -> Option<(i32, i32)> {
    match (a, b) {
        (Some(x), Some(y)) => Some(
            (imin(x.0 as int, y.0 as int) as i32, imax(x.1 as int, y.1 as int) as i32),
        ),
        (Some(x), None) => Some(x),
        (None, Some(y)) => Some(y),
        (None, None) => None,
    }
}

/// What [`AxisSlots::fill`] does to `before`, giving `after` and `b`: the
/// axis's last id is recorded; the frozen band is walked from `origin`
/// without a break; unless that walk aborts or the scroll band's start
/// leaves `i32`, the scroll band is walked from its first id to `last`,
/// breaking at `canvas_extent`, and `b` says whether it completed.
pub open spec fn fill_outcome<S: AxisSlot, F: Fn(i32) -> Option<i32>>(
    measure: F,
    before: AxisSlots<S>,
    after: AxisSlots<S>,
    frozen_count: i32,
    origin: i32,
    view_first: i32,
    last: i32,
    canvas_extent: i32,
    b: bool,
) -> bool {
    &&& after.last_id == last
    &&& exists|frozen_end: Option<i32>|
                #[trigger] walk_outcome(
                    measure,
                    before.frozen@,
                    after.frozen@,
                    vstd::std_specs::range::RangeInclusiveView { start: 1i32, end: frozen_count, exhausted: false },
                    origin as int,
                    None,
                    frozen_end,
                ) && match frozen_end {
                    None => !b && after.scroll@ == before.scroll@,
                    Some(c) => {
                        let offset = scroll_band_offset(c as int, frozen_count as int);
                        if !fits_i32(offset) {
                            !b && after.scroll@ == before.scroll@
                        } else {
                            &&& after.frozen_offset == offset
                            &&& exists|scroll_end: Option<i32>|
                                #[trigger] walk_outcome(
                                    measure,
                                    before.scroll@,
                                    after.scroll@,
                                    vstd::std_specs::range::RangeInclusiveView {
                                        start: spec_scroll_first(frozen_count as int, view_first as int) as i32,
                                        end: last,
                                        exhausted: false,
                                    },
                                    offset,
                                    Some(canvas_extent),
                                    scroll_end,
                                ) && b == scroll_end is Some
                        }
                    },
                }
}

/// Frozen + scroll slot pair for one axis, plus the canvas coordinate where
/// the scroll band begins (past the frozen band and its separator: `y` for
/// rows, `x` for columns).
#[derive(Clone, Debug)]
pub struct AxisSlots<S: AxisSlot> {
    pub frozen: Vec<S>,
    pub scroll: Vec<S>,
    pub frozen_offset: i32,
    /// Last addressable slot id this axis walks to, snapshotted when the
    /// slots were filled, so a frame's queries stay coherent with its
    /// painted extent.
    pub last_id: i32,
}

impl<S: AxisSlot> AxisSlots<S> {
    /// The id lookup is well-defined: the frozen count fits `i32` and the
    /// scroll band's ids are dense.
    pub open spec fn indexable(&self) -> bool {
        self.frozen@.len() <= i32::MAX && dense(self.scroll@)
    }

    /// Full well-formedness: indexable, every far edge representable, and
    /// the scroll band starting at or after the frozen band ends.
    pub open spec fn wf(&self) -> bool {
        &&& self.indexable()
        &&& ends_fit(self.frozen@)
        &&& ends_fit(self.scroll@)
        &&& seam_ok(self.frozen@, self.scroll@)
    }

    /// The scroll band is laid end to end from `frozen_offset` with dense
    /// ids, as a slot walk lays it out.
    pub open spec fn scroll_contiguous(&self) -> bool {
        self.scroll@.len() > 0 ==> laid_out(self.scroll@, self.scroll@[0].spec_id() as int, self.frozen_offset as int)
    }

    /// Populate the frozen and scroll bands and record where the scroll band
    /// starts. The frozen band (ids `1..=frozen_count`) is walked first from
    /// `origin` and always painted; the scroll band starts past it and its
    /// separator (no separator without frozen slots), and is walked from
    /// the first scroll id (see [`scroll_first`]) to `last`, breaking at
    /// `canvas_extent`. `last` is recorded as the axis's last id.
    ///
    /// `false` when a walk aborts (a read failed or an edge would leave
    /// `i32`) or the scroll band's start would: the caller must not commit
    /// the partially filled slots.
    pub fn fill<F: Fn(i32) -> Option<i32>>(
        &mut self,
        frozen_count: i32,
        origin: i32,
        view_first: i32,
        last: i32,
        canvas_extent: i32,
        measure: F,
    ) -> (b: bool)
        requires
            forall|id: i32| measure.requires((id,)),
            frozen_count < i32::MAX,
        ensures
            fill_outcome(measure, *old(self), *final(self), frozen_count, origin, view_first, last, canvas_extent, b),
    {
        self.last_id = last;
        let frozen_range = 1..=frozen_count;
        let ghost fr = frozen_range@;
        let frozen_end = fill_axis(&mut self.frozen, frozen_range, origin, None, &measure);
        proof {
            assert(fr == vstd::std_specs::range::RangeInclusiveView { start: 1i32, end: frozen_count, exhausted: false });
            assert(walk_outcome(measure, old(self).frozen@, self.frozen@, fr, origin as int, None, frozen_end));
        }
        let after_frozen = match frozen_end {
            Some(c) => c,
            None => {
                return false;
            },
        };
        let sep: i32 = if frozen_count > 0 { FROZEN_SEP } else { 0 };
        let frozen_offset = match after_frozen.checked_add(sep) {
            Some(v) => v,
            None => {
                return false;
            },
        };
        self.frozen_offset = frozen_offset;
        let first = scroll_first(frozen_count, view_first);
        let scroll_range = first..=last;
        let ghost sr = scroll_range@;
        let scroll_end = fill_axis(&mut self.scroll, scroll_range, frozen_offset, Some(canvas_extent), &measure);
        proof {
            assert(sr == vstd::std_specs::range::RangeInclusiveView { start: first, end: last, exhausted: false });
            assert(walk_outcome(measure, old(self).scroll@, self.scroll@, sr, frozen_offset as int, Some(canvas_extent), scroll_end));
            assert(frozen_offset == scroll_band_offset(after_frozen as int, frozen_count as int));
            assert(first == spec_scroll_first(frozen_count as int, view_first as int) as i32);
            assert(frozen_end == Some(after_frozen));
            assert(walk_outcome(
                measure,
                old(self).scroll@,
                self.scroll@,
                vstd::std_specs::range::RangeInclusiveView {
                    start: spec_scroll_first(frozen_count as int, view_first as int) as i32,
                    end: last,
                    exhausted: false,
                },
                scroll_band_offset(after_frozen as int, frozen_count as int),
                Some(canvas_extent),
                scroll_end,
            ));
            assert(walk_outcome(
                measure,
                old(self).frozen@,
                self.frozen@,
                vstd::std_specs::range::RangeInclusiveView { start: 1i32, end: frozen_count, exhausted: false },
                origin as int,
                None,
                frozen_end,
            ));
            assert(fits_i32(scroll_band_offset(after_frozen as int, frozen_count as int)));
        }
        scroll_end.is_some()
    }

    /// Every slot sits at a non-negative coordinate with a non-negative
    /// extent, as painted frames are laid out from the canvas origin.
    pub open spec fn nonneg(&self) -> bool {
        &&& forall|i: int| 0 <= i < self.frozen@.len() ==> (#[trigger] self.frozen@[i]).spec_start() >= 0 && self.frozen@[i].spec_extent() >= 0
        &&& forall|i: int| 0 <= i < self.scroll@.len() ==> (#[trigger] self.scroll@[i]).spec_start() >= 0 && self.scroll@[i].spec_extent() >= 0
    }

    /// The slot for `id`, if painted in this frame.
    pub open spec fn spec_slot(&self, id: int) -> Option<S> {
        spec_slot_at(self.frozen@, self.scroll@, id)
    }

    pub fn frozen_count(&self) -> (n: i32)
        requires
            self.frozen@.len() <= i32::MAX,
        ensures
            n == self.frozen@.len(),
    {
        self.frozen.len() as i32
    }

    pub fn slot(&self, id: i32) -> (r: Option<&S>)
        requires
            self.indexable(),
        ensures
            match self.spec_slot(id as int) {
                Some(s) => r == Some(&s),
                None => r is None,
            },
    {
        slot_at(self.frozen.as_slice(), self.scroll.as_slice(), id)
    }

    /// First scroll-band id (top row / left column), or 1 on an empty band.
    pub fn top(&self) -> (r: i32)
        ensures
            r == spec_top_id(self.scroll@),
    {
        top_id(self.scroll.as_slice())
    }

    /// Last scroll-band id, or 1 on an empty band.
    pub fn last_visible(&self) -> (r: i32)
        ensures
            r == spec_last_visible_id(self.scroll@),
    {
        last_visible_id(self.scroll.as_slice())
    }

    pub fn pixel_to_id(&self, pixel: i32) -> (r: Option<i32>)
        ensures
            r == first_covering(self.frozen@ + self.scroll@, pixel as int, 0),
    {
        pixel_to_id(self.frozen.as_slice(), self.scroll.as_slice(), pixel)
    }

    pub fn boundary_at(&self, pixel: i32, tolerance: i32) -> (r: Option<i32>)
        requires
            seam_ok(self.frozen@, self.scroll@),
        ensures
            r == boundary_walk(self.frozen@ + self.scroll@, pixel as int, tolerance as int, 0),
    {
        boundary_at(self.frozen.as_slice(), self.scroll.as_slice(), pixel, tolerance)
    }

    /// Leading-edge coordinate of `id`'s slot (row top / col left); 0
    /// off-frame.
    pub fn to_pixel(&self, id: i32) -> (r: i32)
        requires
            self.indexable(),
        ensures
            r == match self.spec_slot(id as int) {
                Some(s) => s.spec_start(),
                None => 0,
            },
    {
        match self.slot(id) {
            Some(s) => s.start(),
            None => 0,
        }
    }

    /// Extent of `id`'s slot (row height / col width); 0 off-frame.
    pub fn extent_at(&self, id: i32) -> (r: i32)
        requires
            self.indexable(),
        ensures
            r == match self.spec_slot(id as int) {
                Some(s) => s.spec_extent(),
                None => 0,
            },
    {
        match self.slot(id) {
            Some(s) => s.extent(),
            None => 0,
        }
    }

    /// Whether `id` has a slot in this frame.
    pub fn contains(&self, id: i32) -> (b: bool)
        requires
            self.indexable(),
        ensures
            b == self.spec_slot(id as int) is Some,
    {
        self.slot(id).is_some()
    }

    /// Project an inclusive address interval onto this axis's frozen+scroll
    /// slot union: the leading pixel edge of the lowest covered id and the
    /// trailing pixel edge of the highest covered id, or `None` when no id
    /// in the interval has a slot in this frame.
    ///
    /// The bands are deliberately not flattened: an interval that covers the
    /// frozen band *and* the scroll band projects across the separator
    /// between them.
    pub fn project_interval(&self, a: i32, b: i32) -> (r: Option<(i32, i32)>)
        requires
            self.wf(),
        ensures
            r == span_union(
                spec_frozen_span(self.frozen@, imin(a as int, b as int), imax(a as int, b as int)),
                spec_scroll_span(self.scroll@, imin(a as int, b as int), imax(a as int, b as int)),
            ),
    {
        let lo = if a <= b { a } else { b };
        let hi = if a >= b { a } else { b };
        match (self.frozen_span(lo, hi), self.scroll_span(lo, hi)) {
            (Some((f_start, f_end)), Some((s_start, s_end))) => Some(
                (
                    if f_start <= s_start { f_start } else { s_start },
                    if f_end >= s_end { f_end } else { s_end },
                ),
            ),
            (Some(span), None) => Some(span),
            (None, Some(span)) => Some(span),
            (None, None) => None,
        }
    }

    /// Covered pixel span of the frozen band within `[lo, hi]` (ids
    /// `1..=len`).
    pub fn frozen_span(&self, lo: i32, hi: i32) -> (r: Option<(i32, i32)>)
        requires
            self.frozen@.len() <= i32::MAX,
            ends_fit(self.frozen@),
        ensures
            r == spec_frozen_span(self.frozen@, lo as int, hi as int),
    {
        let len = self.frozen.len() as i32;
        if len == 0 || hi < 1 || lo > len {
            return None;
        }
        let a = if lo >= 1 { lo } else { 1 };
        let z = if hi <= len { hi } else { len };
        let first = &self.frozen[(a - 1) as usize];
        let last = &self.frozen[(z - 1) as usize];
        proof {
            assert(fits_i32(slot_end(self.frozen@[z - 1])));
        }
        Some((first.start(), last.end()))
    }

    /// Covered pixel span of the scroll band within `[lo, hi]`.
    pub fn scroll_span(&self, lo: i32, hi: i32) -> (r: Option<(i32, i32)>)
        requires
            dense(self.scroll@),
            ends_fit(self.scroll@),
        ensures
            r == spec_scroll_span(self.scroll@, lo as int, hi as int),
    {
        let n = self.scroll.len();
        if n == 0 {
            return None;
        }
        let first_id = self.scroll[0].id();
        let last_id = self.scroll[n - 1].id();
        if hi < first_id || lo > last_id {
            return None;
        }
        let a = if lo >= first_id { lo } else { first_id };
        let z = if hi <= last_id { hi } else { last_id };
        proof {
            assert(self.scroll@[n - 1].spec_id() == first_id + (n - 1));
        }
        let first = &self.scroll[(a as i64 - first_id as i64) as usize];
        let last = &self.scroll[(z as i64 - first_id as i64) as usize];
        proof {
            assert(fits_i32(slot_end(self.scroll@[z - first_id])));
        }
        Some((first.start(), last.end()))
    }
}

/// A single-axis slot extent resolved from a model read: `Px` is a
/// validated pixel extent, `Invalid` a host value that cannot become
/// geometry (non-finite, negative, or beyond `i32::MAX` px), `BridgeFailed`
/// a transient read failure. `Invalid` and `BridgeFailed` both abort a slot
/// walk: the caller must hold the attempt, never substitute a default.
#[derive(Debug, Clone, Copy, PartialEq, Eq, Structural)]
pub enum ExtentFetch {
    /// Validated pixel extent, `0..=i32::MAX` px.
    Px(i32),
    /// The host returned a value that cannot become a slot extent.
    Invalid,
    /// The model read failed transiently; retry the whole attempt later.
    BridgeFailed,
}

impl ExtentFetch {
    /// Collapse to a pixel extent for an abortable walk: `Some(px)` for a
    /// resolved extent, `None` for `BridgeFailed` or `Invalid`.
    pub fn extent(self) -> (r: Option<i32>)
        ensures
            r == match self {
                ExtentFetch::Px(px) => Some(px),
                _ => None::<i32>,
            },
    {
        match self {
            ExtentFetch::Px(px) => Some(px),
            ExtentFetch::Invalid | ExtentFetch::BridgeFailed => None,
        }
    }
}

} // verus!
