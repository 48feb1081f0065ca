//! Overlay decorations: selection, autofill preview, clipboard marquee,
//! point-mode range, formula-reference highlights.
//!
//! Each decoration owns its snapshot state. What a decoration paints is a
//! function of that state and the committed frame (the rectangles below);
//! which decoration a pointer hits is resolved front to back.

use vstd::prelude::*;

use crate::address::{AutofillTarget, FormulaRef, FormulaRefKind, RCRange, SheetArea, iabs, imax, imin};
use crate::chrome::Chrome;
use crate::chrome::classify::{ActiveCellSnapshot, spec_hash_cell_value};
use crate::geometry::constants::{AUTOFILL_HIT_PAD_PX, REF_HANDLE_HIT_PAD_PX};
use crate::geometry::pixel_rect::PixelRect;
use crate::geometry::slot::first_covering;
use crate::model::{CanvasView, Fetched};
use crate::painter::GroupClass;
use crate::ui::{HitTest, RectCorner, RefZone, Side};

verus! {

/// Which part of a highlighted reference rectangle `(x, y)` grabs, with a
/// grab margin of `pad` pixels: nothing outside the padded rectangle;
/// otherwise a corner when near two meeting edges (top-left, top-right,
/// bottom-left, bottom-right, in that precedence), else an edge when near
/// one (top, bottom, left, right), else the body.
pub open spec fn spec_ref_zone(rect: PixelRect, x: int, y: int, pad: int) -> Option<RefZone> {
    let l = rect.top_left.x as int;
    let t = rect.top_left.y as int;
    let r = rect.spec_right();
    let b = rect.spec_bottom();
    if x < l - pad || x > r + pad || y < t - pad || y > b + pad {
        None
    } else {
        let near_left = iabs(x - l) <= pad;
        let near_right = iabs(x - r) <= pad;
        let near_top = iabs(y - t) <= pad;
        let near_bottom = iabs(y - b) <= pad;
        if near_top && near_left {
            Some(RefZone::Corner(RectCorner::TopLeft))
        } else if near_top && near_right {
            Some(RefZone::Corner(RectCorner::TopRight))
        } else if near_bottom && near_left {
            Some(RefZone::Corner(RectCorner::BottomLeft))
        } else if near_right && near_bottom {
            Some(RefZone::Corner(RectCorner::BottomRight))
        } else if near_top {
            Some(RefZone::Edge(Side::Top))
        } else if near_bottom {
            Some(RefZone::Edge(Side::Bottom))
        } else if near_left {
            Some(RefZone::Edge(Side::Left))
        } else if near_right {
            Some(RefZone::Edge(Side::Right))
        } else {
            Some(RefZone::Body)
        }
    }
}

/// `|a - b| <= pad`, computed without overflow.
fn near(a: i32, b: i32, pad: i32) -> (r: bool)
    ensures
        r == (iabs(a - b) <= pad),
{
    let d: i64 = a as i64 - b as i64;
    let m: i64 = if d < 0 { -d } else { d };
    m <= pad as i64
}

/// Classify a pointer against a highlighted reference rectangle; see
/// [`spec_ref_zone`].
pub fn classify_ref_zone(rect: PixelRect, x: i32, y: i32, pad: i32) -> (z: Option<RefZone>)
    ensures
        z == spec_ref_zone(rect, x as int, y as int, pad as int),
{
    let l: i64 = rect.top_left.x as i64;
    let t: i64 = rect.top_left.y as i64;
    let r: i64 = l + rect.width as i64;
    let b: i64 = t + rect.height as i64;
    let p: i64 = pad as i64;
    let xi: i64 = x as i64;
    let yi: i64 = y as i64;
    if xi < l - p || xi > r + p || yi < t - p || yi > b + p {
        return None;
    }
    let dl = xi - l;
    let dr = xi - r;
    let dt = yi - t;
    let db = yi - b;
    let near_left = (if dl < 0 { -dl } else { dl }) <= p;
    let near_right = (if dr < 0 { -dr } else { dr }) <= p;
    let near_top = (if dt < 0 { -dt } else { dt }) <= p;
    let near_bottom = (if db < 0 { -db } else { db }) <= p;
    if near_top && near_left {
        return Some(RefZone::Corner(RectCorner::TopLeft));
    }
    if near_top && near_right {
        return Some(RefZone::Corner(RectCorner::TopRight));
    }
    if near_bottom && near_left {
        return Some(RefZone::Corner(RectCorner::BottomLeft));
    }
    if near_right && near_bottom {
        return Some(RefZone::Corner(RectCorner::BottomRight));
    }
    if near_top {
        return Some(RefZone::Edge(Side::Top));
    }
    if near_bottom {
        return Some(RefZone::Edge(Side::Bottom));
    }
    if near_left {
        return Some(RefZone::Edge(Side::Left));
    }
    if near_right {
        return Some(RefZone::Edge(Side::Right));
    }
    Some(RefZone::Body)
}

/// The cell under canvas pixel `(x, y)` in `frame`'s painted bands.
pub open spec fn cell_under(frame: Chrome, x: int, y: int) -> Option<(i32, i32)> {
    match (
        first_covering(frame.pane_set.rows.frozen@ + frame.pane_set.rows.scroll@, y, 0),
        first_covering(frame.pane_set.cols.frozen@ + frame.pane_set.cols.scroll@, x, 0),
    ) {
        (Some(r), Some(c)) => Some((r, c)),
        _ => None,
    }
}

/// Autofill drag preview: the selection and the drag target.
#[derive(Clone, Copy, Debug, Default)]
pub struct AutofillLayer {
    pub extend_to: Option<AutofillTarget>,
    pub selection_range: RCRange,
}

/// The range an autofill drag to `target` covers: the selection grown to
/// include the target cell.
pub open spec fn spec_autofill_preview(sel: RCRange, target: AutofillTarget) -> RCRange {
    RCRange {
        r1: imin(sel.lo_row(), target.row as int) as i32,
        c1: imin(sel.lo_col(), target.col as int) as i32,
        r2: imax(sel.hi_row(), target.row as int) as i32,
        c2: imax(sel.hi_col(), target.col as int) as i32,
    }
}

/// What the autofill handle hit probe answers for `sel` at `(x, y)`: the
/// handle's square grown by [`AUTOFILL_HIT_PAD_PX`] must contain the pixel,
/// which must lie on a painted cell.
pub open spec fn spec_autofill_hit(frame: Chrome, sel: RCRange, x: int, y: int) -> Option<HitTest> {
    match frame.spec_autofill_handle_rect(sel) {
        None => None,
        Some(h) => {
            let pad = AUTOFILL_HIT_PAD_PX as int;
            if x < h.top_left.x - pad || x > h.spec_right() + pad || y < h.top_left.y - pad || y
                > h.spec_bottom() + pad {
                None
            } else {
                match cell_under(frame, x, y) {
                    Some((row, column)) => Some(HitTest::AutofillHandle { row, column }),
                    None => None,
                }
            }
        },
    }
}

impl AutofillLayer {
    pub fn group(&self) -> (g: GroupClass)
        ensures
            g == GroupClass::Autofill,
    {
        GroupClass::Autofill
    }

    /// The range the drag preview outlines, while a drag is in progress.
    pub fn preview_range(&self) -> (r: Option<RCRange>)
        ensures
            r == match self.extend_to {
                Some(t) => Some(spec_autofill_preview(self.selection_range, t)),
                None => None,
            },
    {
        let target = match self.extend_to {
            Some(t) => t,
            None => {
                return None;
            },
        };
        let sel = self.selection_range.normalized();
        Some(
            RCRange {
                r1: if sel.r1 <= target.row { sel.r1 } else { target.row },
                c1: if sel.c1 <= target.col { sel.c1 } else { target.col },
                r2: if sel.r2 >= target.row { sel.r2 } else { target.row },
                c2: if sel.c2 >= target.col { sel.c2 } else { target.col },
            },
        )
    }

    /// The rectangle the drag preview dashes, if any of it is painted.
    pub fn preview_rect(&self, frame: &Chrome) -> (r: Option<PixelRect>)
        requires
            frame.wf(),
        ensures
            r == match self.extend_to {
                Some(t) => frame.spec_range_rect(spec_autofill_preview(self.selection_range, t)),
                None => None,
            },
    {
        match self.preview_range() {
            Some(range) => frame.range_rect(range),
            None => None,
        }
    }

    /// Hit probe for the autofill handle of `selection_range`.
    pub fn hit_test(&self, frame: &Chrome, selection_range: RCRange, x: i32, y: i32) -> (h: Option<HitTest>)
        requires
            frame.wf(),
        ensures
            h == spec_autofill_hit(*frame, selection_range, x as int, y as int),
    {
        let h = match frame.autofill_handle_rect(selection_range) {
            Some(h) => h,
            None => {
                return None;
            },
        };
        let pad: i64 = AUTOFILL_HIT_PAD_PX as i64;
        let left: i64 = h.top_left.x as i64;
        let top: i64 = h.top_left.y as i64;
        let right: i64 = left + h.width as i64;
        let bottom: i64 = top + h.height as i64;
        if (x as i64) < left - pad || (x as i64) > right + pad || (y as i64) < top - pad || (y as i64) > bottom
            + pad {
            return None;
        }
        let row = match frame.pane_set.rows.pixel_to_id(y) {
            Some(r) => r,
            None => {
                return None;
            },
        };
        let column = match frame.pane_set.cols.pixel_to_id(x) {
            Some(c) => c,
            None => {
                return None;
            },
        };
        Some(HitTest::AutofillHandle { row, column })
    }
}

/// Clipboard marquee: the copied or cut area.
#[derive(Clone, Copy, Debug, Default)]
pub struct ClipboardLayer {
    pub clipboard: Option<SheetArea>,
}

impl ClipboardLayer {
    pub fn group(&self) -> (g: GroupClass)
        ensures
            g == GroupClass::Clipboard,
    {
        GroupClass::Clipboard
    }

    /// The rectangle the marquee dashes: the area, when it is on the
    /// frame's sheet and any of it is painted.
    pub fn marquee_rect(&self, frame: &Chrome) -> (r: Option<PixelRect>)
        requires
            frame.wf(),
        ensures
            r == match self.clipboard {
                Some(cb) => if cb.sheet == frame.sheet {
                    frame.spec_range_rect(cb.range)
                } else {
                    None
                },
                None => None,
            },
    {
        let cb = match self.clipboard {
            Some(cb) => cb,
            None => {
                return None;
            },
        };
        if cb.sheet != frame.sheet {
            return None;
        }
        frame.range_rect(cb.range.normalized())
    }
}

/// Point mode: the range being pointed at during formula entry.
#[derive(Clone, Copy, Debug, Default)]
pub struct PointModeLayer {
    pub point_range: Option<RCRange>,
}

impl PointModeLayer {
    pub fn group(&self) -> (g: GroupClass)
        ensures
            g == GroupClass::PointMode,
    {
        GroupClass::PointMode
    }

    /// The rectangle point mode tints and dashes.
    pub fn pointed_rect(&self, frame: &Chrome) -> (r: Option<PixelRect>)
        requires
            frame.wf(),
        ensures
            r == match self.point_range {
                Some(pr) => frame.spec_range_rect(pr),
                None => None,
            },
    {
        match self.point_range {
            Some(pr) => frame.range_rect(pr.normalized()),
            None => None,
        }
    }
}

/// Formula-reference highlights, one colour each.
#[derive(Clone, Debug, Default)]
pub struct FormulaRefsLayer {
    pub refs: Vec<FormulaRef>,
}

/// What the formula-reference probe finds among the first `n` references,
/// scanning from the last (topmost) down: the first direct reference on
/// the frame's sheet whose rectangle the pointer grabs over a painted cell.
pub open spec fn spec_ref_hit(frame: Chrome, refs: Seq<FormulaRef>, x: int, y: int, n: int) -> Option<HitTest>
    decreases n,
{
    if n <= 0 || n > refs.len() {
        None
    } else {
        let i = n - 1;
        let fr = refs[i];
        let here = if fr.kind == FormulaRefKind::Direct && fr.sheet_area.sheet == frame.sheet {
            match frame.spec_range_rect(fr.sheet_area.range) {
                Some(rect) => match spec_ref_zone(rect, x, y, REF_HANDLE_HIT_PAD_PX as int) {
                    Some(zone) => match cell_under(frame, x, y) {
                        Some((grab_row, grab_column)) => Some(
                            HitTest::FormulaRef { ref_idx: i as usize, zone, grab_row, grab_column },
                        ),
                        None => None,
                    },
                    None => None,
                },
                None => None,
            }
        } else {
            None
        };
        match here {
            Some(h) => Some(h),
            None => spec_ref_hit(frame, refs, x, y, i),
        }
    }
}

/// The highlight rectangles and colour indices of `refs` on `frame`'s
/// sheet, in order, skipping references with nothing painted.
pub open spec fn spec_highlights(frame: Chrome, refs: Seq<FormulaRef>) -> Seq<(PixelRect, usize)>
    decreases refs.len(),
{
    if refs.len() == 0 {
        Seq::empty()
    } else {
        let fr = refs.last();
        let rest = spec_highlights(frame, refs.drop_last());
        if fr.sheet_area.sheet == frame.sheet {
            match frame.spec_range_rect(fr.sheet_area.range) {
                Some(rect) => rest.push((rect, fr.color_idx)),
                None => rest,
            }
        } else {
            rest
        }
    }
}

/// `h` is the highlight of some reference of `refs` on `frame`'s sheet:
/// that reference's painted range and colour index.
pub open spec fn from_on_sheet_ref(frame: Chrome, refs: Seq<FormulaRef>, h: (PixelRect, usize)) -> bool {
    exists|j: int|
        #![trigger refs[j]]
        0 <= j < refs.len() && refs[j].sheet_area.sheet == frame.sheet && frame.spec_range_rect(
            refs[j].sheet_area.range,
        ) == Some(h.0) && h.1 == refs[j].color_idx
}

/// `h` is one of `hs`.
pub open spec fn listed(hs: Seq<(PixelRect, usize)>, h: (PixelRect, usize)) -> bool {
    exists|i: int| #![trigger hs[i]] 0 <= i < hs.len() && hs[i] == h
}

/// Every highlight comes from a reference on the frame's sheet: its
/// rectangle is that reference's painted range and its colour index the
/// reference's. Conversely every reference on the frame's sheet whose range
/// is painted yields a highlight; a reference to another sheet yields none.
pub open spec fn highlights_law(frame: Chrome, refs: Seq<FormulaRef>, hs: Seq<(PixelRect, usize)>) -> bool {
    &&& hs.len() <= refs.len()
    &&& forall|i: int| 0 <= i < hs.len() ==> from_on_sheet_ref(frame, refs, #[trigger] hs[i])
    &&& forall|j: int|
        0 <= j < refs.len() && (#[trigger] refs[j]).sheet_area.sheet == frame.sheet ==> (frame.spec_range_rect(
            refs[j].sheet_area.range,
        ) matches Some(rect) ==> listed(hs, (rect, refs[j].color_idx)))
    &&& (forall|j: int| 0 <= j < refs.len() ==> (#[trigger] refs[j]).sheet_area.sheet != frame.sheet) ==> hs.len() == 0
}

/// The highlights of a layer obey [`highlights_law`].
pub proof fn lemma_highlights(frame: Chrome, refs: Seq<FormulaRef>)
    ensures
        highlights_law(frame, refs, spec_highlights(frame, refs)),
    decreases refs.len(),
{
    if refs.len() > 0 {
        let init = refs.drop_last();
        lemma_highlights(frame, init);
        let rest = spec_highlights(frame, init);
        let hs = spec_highlights(frame, refs);
        let fr = refs.last();
        assert(refs[refs.len() - 1] == fr);
        assert forall|i: int| 0 <= i < hs.len() implies from_on_sheet_ref(frame, refs, #[trigger] hs[i]) by {
            if i < rest.len() {
                assert(hs[i] == rest[i]);
                assert(from_on_sheet_ref(frame, init, rest[i]));
                let j = choose|j: int|
                    #![trigger init[j]]
                    0 <= j < init.len() && init[j].sheet_area.sheet == frame.sheet && frame.spec_range_rect(
                        init[j].sheet_area.range,
                    ) == Some(rest[i].0) && rest[i].1 == init[j].color_idx;
                assert(refs[j] == init[j]);
            }
        }
        assert forall|j: int|
            0 <= j < refs.len() && (#[trigger] refs[j]).sheet_area.sheet == frame.sheet implies (frame.spec_range_rect(
            refs[j].sheet_area.range,
        ) matches Some(rect) ==> listed(hs, (rect, refs[j].color_idx))) by {
            if j < init.len() {
                assert(refs[j] == init[j]);
                assert(init[j].sheet_area.sheet == frame.sheet);
                if let Some(rect) = frame.spec_range_rect(refs[j].sheet_area.range) {
                    assert(listed(rest, (rect, init[j].color_idx)));
                    let i = choose|i: int| #![trigger rest[i]] 0 <= i < rest.len() && rest[i] == (rect, init[j].color_idx);
                    assert(hs[i] == rest[i]);
                }
            } else {
                assert(refs[j] == fr);
                if let Some(rect) = frame.spec_range_rect(refs[j].sheet_area.range) {
                    assert(hs[rest.len() as int] == (rect, fr.color_idx));
                }
            }
        }
        if forall|j: int| 0 <= j < refs.len() ==> (#[trigger] refs[j]).sheet_area.sheet != frame.sheet {
            assert forall|j: int| 0 <= j < init.len() implies (#[trigger] init[j]).sheet_area.sheet != frame.sheet by {
                assert(init[j] == refs[j]);
            }
        }
    }
}

impl FormulaRefsLayer {
    pub fn group(&self) -> (g: GroupClass)
        ensures
            g == GroupClass::FormulaRefs,
    {
        GroupClass::FormulaRefs
    }

    /// The painted highlight of each reference on the frame's sheet: its
    /// rectangle and colour index, in reference order.
    pub fn highlights(&self, frame: &Chrome) -> (v: Vec<(PixelRect, usize)>)
        requires
            frame.wf(),
        ensures
            v@ == spec_highlights(*frame, self.refs@),
            highlights_law(*frame, self.refs@, v@),
    {
        proof {
            lemma_highlights(*frame, self.refs@);
        }
        let mut out: Vec<(PixelRect, usize)> = Vec::new();
        let mut i: usize = 0;
        while i < self.refs.len()
            invariant
                frame.wf(),
                0 <= i <= self.refs@.len(),
                out@ == spec_highlights(*frame, self.refs@.take(i as int)),
            decreases self.refs.len() - i,
        {
            let fr = self.refs[i];
            proof {
                assert(self.refs@.take(i + 1).drop_last() =~= self.refs@.take(i as int));
                assert(self.refs@.take(i + 1).last() == fr);
            }
            if fr.sheet_area.sheet == frame.sheet {
                match frame.range_rect(fr.sheet_area.range.normalized()) {
                    Some(b) => {
                        out.push((b, fr.color_idx));
                    },
                    None => {},
                }
            }
            i = i + 1;
        }
        proof {
            assert(self.refs@.take(self.refs@.len() as int) =~= self.refs@);
        }
        out
    }

    /// Front-to-back hit probe: the topmost (last) direct reference on the
    /// frame's sheet whose rectangle the pointer grabs.
    pub fn hit_test(&self, frame: &Chrome, x: i32, y: i32) -> (h: Option<HitTest>)
        requires
            frame.wf(),
        ensures
            h == spec_ref_hit(*frame, self.refs@, x as int, y as int, self.refs@.len() as int),
    {
        let mut n: usize = self.refs.len();
        while n > 0
            invariant
                frame.wf(),
                0 <= n <= self.refs@.len(),
                spec_ref_hit(*frame, self.refs@, x as int, y as int, self.refs@.len() as int) == spec_ref_hit(
                    *frame,
                    self.refs@,
                    x as int,
                    y as int,
                    n as int,
                ),
            decreases n,
        {
            let i = n - 1;
            let fr = self.refs[i];
            let is_direct = match fr.kind {
                FormulaRefKind::Direct => true,
                _ => false,
            };
            if is_direct && fr.sheet_area.sheet == frame.sheet {
                match frame.range_rect(fr.sheet_area.range.normalized()) {
                    Some(rect) => match classify_ref_zone(rect, x, y, REF_HANDLE_HIT_PAD_PX) {
                        Some(zone) => {
                            let r = frame.pane_set.rows.pixel_to_id(y);
                            let c = frame.pane_set.cols.pixel_to_id(x);
                            match (r, c) {
                                (Some(grab_row), Some(grab_column)) => {
                                    return Some(
                                        HitTest::FormulaRef { ref_idx: i, zone, grab_row, grab_column },
                                    );
                                },
                                _ => {},
                            }
                        },
                        None => {},
                    },
                    None => {},
                }
            }
            n = i;
        }
        None
    }
}

/// The active cell the renderer repaints after the selection fill.
#[derive(Clone, Copy, Debug, PartialEq, Eq, Structural)]
pub struct RepaintActiveCell {
    pub row: i32,
    pub col: i32,
}

/// Selection overlay: fill, active-cell repaint, stroke and autofill
/// handle.
#[derive(Clone, Debug)]
pub struct SelectionLayer {
    pub selection_range: Option<RCRange>,
    pub active_cell: Option<ActiveCellSnapshot>,
    show_selection: bool,
}

impl Default for SelectionLayer {
    /// A layer that has seen no committed attempt: hidden, with no range
    /// and no active-cell snapshot.
    fn default() -> (l: Self)
        ensures
            !l.shows(),
            l.spec_range() is None,
            l.spec_active() is None,
    {
        SelectionLayer { selection_range: None, active_cell: None, show_selection: false }
    }
}

impl SelectionLayer {
    /// Whether the selection paints at all.
    pub closed spec fn shows(&self) -> bool {
        self.show_selection
    }

    /// The selection range the layer paints, if any.
    pub closed spec fn spec_range(&self) -> Option<RCRange> {
        self.selection_range
    }

    /// The active-cell snapshot of the last committed attempt.
    pub closed spec fn spec_active(&self) -> Option<ActiveCellSnapshot> {
        self.active_cell
    }

    pub fn group(&self) -> (g: GroupClass)
        ensures
            g == GroupClass::SelectionFill,
    {
        GroupClass::SelectionFill
    }

    /// Refresh from a committed attempt's view: snapshot the active cell
    /// (with `active_value`, the formatted value read there) and take the
    /// selection when it shows.
    pub fn refresh(&mut self, view: &CanvasView, show_selection: bool, active_value: Fetched<String>)
        ensures
            final(self).shows() == show_selection,
            final(self).spec_range() == if show_selection {
                Some(view.selection)
            } else {
                None
            },
            final(self).spec_active() matches Some(a) && a.row == view.row && a.col == view.column && (a.value_hash is None
                <==> active_value is BridgeFailed) && a.value_hash == spec_hash_cell_value(active_value),
    {
        self.show_selection = show_selection;
        self.active_cell = Some(ActiveCellSnapshot::capture(view.row, view.column, active_value));
        self.selection_range = if show_selection {
            Some(view.selection)
        } else {
            None
        };
    }

    /// The active cell to repaint over the fill, when the selection shows.
    pub fn active_cell_repaint(&self) -> (r: Option<RepaintActiveCell>)
        ensures
            r == if self.shows() {
                match self.spec_active() {
                    Some(a) => Some(RepaintActiveCell { row: a.row, col: a.col }),
                    None => None,
                }
            } else {
                None
            },
    {
        if !self.show_selection {
            return None;
        }
        match &self.active_cell {
            Some(a) => Some(RepaintActiveCell { row: a.row, col: a.col }),
            None => None,
        }
    }

    /// The rectangle the selection fill covers.
    pub fn fill_rect(&self, frame: &Chrome) -> (r: Option<PixelRect>)
        requires
            frame.wf(),
        ensures
            r == match self.spec_range() {
                Some(range) => frame.spec_range_rect(range),
                None => None,
            },
    {
        match self.selection_range {
            Some(range) => frame.range_rect(range.normalized()),
            None => None,
        }
    }
}

/// The overlay-canvas configuration a host pushes in one call.
#[derive(Clone, Debug, Default)]
pub struct RenderOverlays {
    /// Target cell during an autofill-handle drag.
    pub extend_to: Option<AutofillTarget>,
    pub clipboard: Option<SheetArea>,
    /// Range being pointed at during formula entry.
    pub point_range: Option<RCRange>,
    /// Every reference extracted from the current formula.
    pub formula_refs: Vec<FormulaRef>,
}

/// The built-in decorations.
#[derive(Clone, Debug, Default)]
pub struct Decorations {
    selection: SelectionLayer,
    autofill: AutofillLayer,
    clipboard: ClipboardLayer,
    point_mode: PointModeLayer,
    formula_refs: FormulaRefsLayer,
}

/// What the built-in decorations answer for a pointer, front to back:
/// formula references, then the autofill handle (point mode, clipboard and
/// selection take no hits).
pub open spec fn spec_decoration_hit(frame: Chrome, refs: Seq<FormulaRef>, sel: RCRange, x: int, y: int) -> Option<
    HitTest,
> {
    match spec_ref_hit(frame, refs, x, y, refs.len() as int) {
        Some(h) => Some(h),
        None => spec_autofill_hit(frame, sel, x, y),
    }
}

impl Decorations {
    pub closed spec fn extend_to(&self) -> Option<AutofillTarget> {
        self.autofill.extend_to
    }

    pub closed spec fn clipboard(&self) -> Option<SheetArea> {
        self.clipboard.clipboard
    }

    pub closed spec fn point_range(&self) -> Option<RCRange> {
        self.point_mode.point_range
    }

    pub closed spec fn formula_refs(&self) -> Seq<FormulaRef> {
        self.formula_refs.refs@
    }

    pub closed spec fn spec_selection(&self) -> SelectionLayer {
        self.selection
    }

    /// The selection the autofill layer anchors on.
    pub closed spec fn autofill_anchor(&self) -> RCRange {
        self.autofill.selection_range
    }

    pub fn selection(&self) -> (s: &SelectionLayer)
        ensures
            *s == self.spec_selection(),
    {
        &self.selection
    }

    pub fn active_cell_repaint(&self) -> (r: Option<RepaintActiveCell>)
        ensures
            r == if self.spec_selection().shows() {
                match self.spec_selection().spec_active() {
                    Some(a) => Some(RepaintActiveCell { row: a.row, col: a.col }),
                    None => None,
                }
            } else {
                None
            },
    {
        self.selection.active_cell_repaint()
    }

    /// Refresh the committed selection and active-cell state after a
    /// committed attempt, and re-anchor the autofill layer on the
    /// selection (an empty range when none shows).
    pub fn refresh_overlay_state(&mut self, view: &CanvasView, show_selection: bool, active_value: Fetched<String>)
        ensures
            final(self).spec_selection().shows() == show_selection,
            final(self).spec_selection().spec_range() == if show_selection {
                Some(view.selection)
            } else {
                None
            },
            final(self).autofill_anchor() == if show_selection {
                view.selection
            } else {
                RCRange { r1: 0, c1: 0, r2: 0, c2: 0 }
            },
            final(self).extend_to() == old(self).extend_to(),
            final(self).clipboard() == old(self).clipboard(),
            final(self).point_range() == old(self).point_range(),
            final(self).formula_refs() == old(self).formula_refs(),
    {
        self.selection.refresh(view, show_selection, active_value);
        self.autofill.selection_range = match self.selection.selection_range {
            Some(r) => r,
            None => RCRange { r1: 0, c1: 0, r2: 0, c2: 0 },
        };
    }

    /// Set the autofill drag target; whether it changed.
    pub fn set_extend_to(&mut self, target: Option<AutofillTarget>) -> (changed: bool)
        ensures
            changed == (old(self).extend_to() != target),
            final(self).extend_to() == target,
            final(self).clipboard() == old(self).clipboard(),
            final(self).point_range() == old(self).point_range(),
            final(self).formula_refs() == old(self).formula_refs(),
            final(self).spec_selection() == old(self).spec_selection(),
            final(self).autofill_anchor() == old(self).autofill_anchor(),
    {
        let changed = !option_eq_target(self.autofill.extend_to, target);
        if changed {
            self.autofill.extend_to = target;
        }
        changed
    }

    /// Set the clipboard area; whether it changed.
    pub fn set_clipboard(&mut self, area: Option<SheetArea>) -> (changed: bool)
        ensures
            changed == (old(self).clipboard() != area),
            final(self).clipboard() == area,
            final(self).extend_to() == old(self).extend_to(),
            final(self).point_range() == old(self).point_range(),
            final(self).formula_refs() == old(self).formula_refs(),
            final(self).spec_selection() == old(self).spec_selection(),
            final(self).autofill_anchor() == old(self).autofill_anchor(),
    {
        let same = match (self.clipboard.clipboard, area) {
            (Some(a), Some(b)) => a == b,
            (None, None) => true,
            _ => false,
        };
        if !same {
            self.clipboard.clipboard = area;
        }
        !same
    }

    /// Set the point-mode range; whether it changed.
    pub fn set_point_range(&mut self, range: Option<RCRange>) -> (changed: bool)
        ensures
            changed == (old(self).point_range() != range),
            final(self).point_range() == range,
            final(self).extend_to() == old(self).extend_to(),
            final(self).clipboard() == old(self).clipboard(),
            final(self).formula_refs() == old(self).formula_refs(),
            final(self).spec_selection() == old(self).spec_selection(),
            final(self).autofill_anchor() == old(self).autofill_anchor(),
    {
        let same = match (self.point_mode.point_range, range) {
            (Some(a), Some(b)) => a == b,
            (None, None) => true,
            _ => false,
        };
        if !same {
            self.point_mode.point_range = range;
        }
        !same
    }

    /// Set the formula references; whether they changed.
    pub fn set_formula_refs(&mut self, refs: Vec<FormulaRef>) -> (changed: bool)
        ensures
            changed == (old(self).formula_refs() != refs@),
            final(self).formula_refs() == refs@,
            final(self).extend_to() == old(self).extend_to(),
            final(self).clipboard() == old(self).clipboard(),
            final(self).point_range() == old(self).point_range(),
            final(self).spec_selection() == old(self).spec_selection(),
            final(self).autofill_anchor() == old(self).autofill_anchor(),
    {
        let same = refs_equal(&self.formula_refs.refs, &refs);
        if !same {
            self.formula_refs.refs = refs;
        }
        !same
    }

    /// Apply a whole overlay configuration; whether any part changed.
    pub fn set_overlays(&mut self, overlays: RenderOverlays) -> (changed: bool)
        ensures
            changed == (old(self).extend_to() != overlays.extend_to || old(self).clipboard() != overlays.clipboard
                || old(self).point_range() != overlays.point_range || old(self).formula_refs()
                != overlays.formula_refs@),
            final(self).extend_to() == overlays.extend_to,
            final(self).clipboard() == overlays.clipboard,
            final(self).point_range() == overlays.point_range,
            final(self).formula_refs() == overlays.formula_refs@,
            final(self).spec_selection() == old(self).spec_selection(),
            final(self).autofill_anchor() == old(self).autofill_anchor(),
    {
        let RenderOverlays { extend_to, clipboard, point_range, formula_refs } = overlays;
        let a = self.set_extend_to(extend_to);
        let b = self.set_clipboard(clipboard);
        let c = self.set_point_range(point_range);
        let d = self.set_formula_refs(formula_refs);
        a || b || c || d
    }

    /// What the built-in decorations hit at `(x, y)`, front to back, given
    /// the live selection (an empty range when none).
    pub fn hit_test(&self, frame: &Chrome, selection_range: RCRange, x: i32, y: i32) -> (h: Option<HitTest>)
        requires
            frame.wf(),
        ensures
            h == spec_decoration_hit(*frame, self.formula_refs(), selection_range, x as int, y as int),
    {
        match self.formula_refs.hit_test(frame, x, y) {
            Some(h) => Some(h),
            None => self.autofill.hit_test(frame, selection_range, x, y),
        }
    }
}

fn option_eq_target(a: Option<AutofillTarget>, b: Option<AutofillTarget>) -> (r: bool)
    ensures
        r == (a == b),
{
    match (a, b) {
        (Some(x), Some(y)) => x == y,
        (None, None) => true,
        _ => false,
    }
}

/// Element-wise equality of two reference lists.
fn refs_equal(a: &Vec<FormulaRef>, b: &Vec<FormulaRef>) -> (r: bool)
    ensures
        r == (a@ == b@),
{
    if a.len() != b.len() {
        return false;
    }
    let mut i: usize = 0;
    while i < a.len()
        invariant
            a@.len() == b@.len(),
            0 <= i <= a@.len(),
            forall|k: int| 0 <= k < i ==> a@[k] == b@[k],
        decreases a.len() - i,
    {
        if !(a[i] == b[i]) {
            return false;
        }
        i = i + 1;
    }
    proof {
        assert(a@ =~= b@);
    }
    true
}

} // verus!
