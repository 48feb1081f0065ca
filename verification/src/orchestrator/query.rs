//! Viewport queries: the smallest scroll origin that brings a target id
//! fully into the scrollable band.

use vstd::prelude::*;

use crate::address::imax;
use crate::chrome::Chrome;
use crate::decoration::cell_under;
use crate::geometry::pixel_rect::PixelRect;
use crate::geometry::prim::Point;
use crate::geometry::slot::{scroll_first, spec_scroll_first};
use crate::model::CanvasView;

verus! {

/// Sum of the first `n` heights of `hs`.
pub open spec fn prefix_sum(hs: Seq<i32>, n: int) -> int
    decreases n,
{
    if n <= 0 || n > hs.len() { 0 } else { prefix_sum(hs, n - 1) + hs[n - 1] }
}

/// `hs[i]` is a height `measure` reports for id `target - i`.
pub open spec fn observed_back<F: Fn(i32) -> Option<i32>>(measure: F, target: int, hs: Seq<i32>) -> bool {
    forall|i: int| 0 <= i < hs.len() ==> call_ensures(measure, ((target - i) as i32,), Some(#[trigger] hs[i]))
}

/// `measure` reports a failed read for `id`.
pub open spec fn failed_read<F: Fn(i32) -> Option<i32>>(measure: F, id: int) -> bool {
    call_ensures(measure, (id as i32,), None)
}

/// Walking back from the target, `c` steps is the furthest walk whose run
/// of heights (the target's plus each step's) still fits in `extent`,
/// stopping at `limit` steps: every run up to `c` steps fits, and either
/// the limit was reached or the next step's run overflows.
pub open spec fn walk_stops_at(hs: Seq<i32>, extent: int, limit: int, c: int) -> bool {
    &&& 0 <= c <= limit
    &&& hs.len() >= c + 1
    &&& forall|j: int| 1 <= j <= c ==> #[trigger] prefix_sum(hs, j + 1) <= extent
    &&& (c == limit || (hs.len() >= c + 2 && prefix_sum(hs, c + 2) > extent))
}

/// `hs` are heights `measure` reported walking back from `target`, and the
/// walk stopped after `c` steps.
pub open spec fn back_walk<F: Fn(i32) -> Option<i32>>(
    measure: F,
    target: int,
    frozen: int,
    extent: int,
    hs: Seq<i32>,
    c: int,
) -> bool {
    observed_back(measure, target, hs) && walk_stops_at(hs, extent, target - frozen - 1, c)
}

/// As [`back_walk`], for a measure that always reports a height.
pub open spec fn back_walk_total<F: Fn(i32) -> i32>(
    measure: F,
    target: int,
    frozen: int,
    extent: int,
    hs: Seq<i32>,
    c: int,
) -> bool {
    &&& forall|i: int| 0 <= i < hs.len() ==> call_ensures(measure, ((target - i) as i32,), #[trigger] hs[i])
    &&& walk_stops_at(hs, extent, target - frozen - 1, c)
}

proof fn lemma_prefix_push_prefix(hs: Seq<i32>, x: i32, n: int)
    requires
        0 <= n <= hs.len(),
    ensures
        prefix_sum(hs.push(x), n) == prefix_sum(hs, n),
    decreases n,
{
    if n > 0 {
        lemma_prefix_push_prefix(hs, x, n - 1);
    }
}

proof fn lemma_prefix_push(hs: Seq<i32>, x: i32, n: int)
    requires
        0 <= n <= hs.len(),
    ensures
        prefix_sum(hs.push(x), n) == prefix_sum(hs, n),
        prefix_sum(hs.push(x), hs.len() + 1int) == prefix_sum(hs, hs.len() as int) + x,
{
    lemma_prefix_push_prefix(hs, x, n);
    lemma_prefix_push_prefix(hs, x, hs.len() as int);
    assert(hs.push(x)[hs.len() as int] == x);
}

/// What [`origin_showing`] answers: `current` when the axis is collapsed
/// or the target is frozen; the target when the band starts past it;
/// otherwise the larger of `current` and where a walk back from the target
/// stopped, or `None` when a read on the walk failed.
pub open spec fn origin_outcome<F: Fn(i32) -> Option<i32>>(
    measure: F,
    target: i32,
    current: i32,
    frozen: i32,
    extent: i32,
    r: Option<i32>,
) -> bool {
    &&& extent <= 0 || target <= frozen ==> r == Some(current)
    &&& !(extent <= 0 || target <= frozen) && target < current ==> r == Some(target)
    &&& !(extent <= 0 || target <= frozen || target < current) ==> match r {
        Some(v) => exists|hs: Seq<i32>, c: int|
            #[trigger] back_walk(measure, target as int, frozen as int, extent as int, hs, c) && v == imax(
                current as int,
                target - c,
            ),
        None => exists|i: int| 0 <= i < target - frozen && #[trigger] failed_read(measure, target - i),
    }
}

/// Smallest band origin along one axis that shows `target` in full, given
/// the axis's frozen count, its scrollable `extent` in pixels, and where the
/// band currently starts.
///
/// A collapsed axis (`extent <= 0`) scrolls nowhere and a frozen target is
/// always painted: both answer `current`. A target before the band flushes
/// against the near edge. Otherwise the walk goes back from the target while
/// the run of heights still fits, never into the frozen run; any origin at
/// or after the walk's end also shows the target, hence the final `max`
/// with `current`. The walk is bounded by how many slots fit in `extent`.
/// `None` when `measure` reports a failed read: a scroll target derived from
/// fabricated heights is not trustworthy.
pub fn origin_showing<F: Fn(i32) -> Option<i32>>(
    target: i32,
    current: i32,
    frozen: i32,
    extent: i32,
    measure: F,
) -> (r: Option<i32>)
    requires
        forall|id: i32| measure.requires((id,)),
    ensures
        origin_outcome(measure, target, current, frozen, extent, r),
{
    if extent <= 0 || target <= frozen {
        return Some(current);
    }
    if target < current {
        return Some(target);
    }
    let first = match measure(target) {
        Some(h) => h,
        None => {
            proof {
                assert(failed_read(measure, target - 0));
            }
            return None;
        },
    };
    let mut smallest: i32 = target;
    let mut run: i64 = first as i64;
    let ghost mut hs: Seq<i32> = seq![first];
    proof {
        assert(prefix_sum(hs, 1) == first) by {
            reveal_with_fuel(prefix_sum, 2);
        }
    }
    while smallest > frozen + 1
        invariant
            forall|id: i32| measure.requires((id,)),
            frozen < target,
            current <= target,
            extent > 0,
            frozen + 1 <= smallest <= target,
            hs.len() == target - smallest + 1,
            observed_back(measure, target as int, hs),
            run == prefix_sum(hs, hs.len() as int),
            run >= -2147483648 * (target - smallest + 1),
            run <= 2147483647,
            forall|j: int| 1 <= j <= target - smallest ==> #[trigger] prefix_sum(hs, j + 1) <= extent,
        decreases smallest - frozen,
    {
        let previous = match measure(smallest - 1) {
            Some(h) => h,
            None => {
                proof {
                    assert(failed_read(measure, target - (target - smallest + 1)));
                }
                return None;
            },
        };
        let ghost c = target - smallest;
        proof {
            lemma_prefix_push(hs, previous, hs.len() as int);
            assert forall|j: int| 1 <= j <= c implies #[trigger] prefix_sum(hs.push(previous), j + 1)
                == prefix_sum(hs, j + 1) by {
                lemma_prefix_push(hs, previous, j + 1);
            }
            assert forall|i: int| 0 <= i < hs.len() + 1 implies call_ensures(
                measure,
                ((target - i) as i32,),
                Some(#[trigger] hs.push(previous)[i]),
            ) by {
                if i < hs.len() {
                    assert(hs.push(previous)[i] == hs[i]);
                }
            }
            hs = hs.push(previous);
        }
        if run + previous as i64 > extent as i64 {
            proof {
                assert(walk_stops_at(hs, extent as int, target - frozen - 1, c));
                assert(back_walk(measure, target as int, frozen as int, extent as int, hs, c));
            }
            return Some(if current >= smallest { current } else { smallest });
        }
        smallest = smallest - 1;
        run = run + previous as i64;
    }
    proof {
        assert(walk_stops_at(hs, extent as int, target - frozen - 1, target - smallest));
        assert(back_walk(measure, target as int, frozen as int, extent as int, hs, target - smallest));
    }
    Some(if current >= smallest { current } else { smallest })
}

/// [`origin_showing`] over a measure that always reports a height.
pub fn origin_showing_infallible<F: Fn(i32) -> i32>(
    target: i32,
    current: i32,
    frozen: i32,
    extent: i32,
    measure: F,
) -> (r: i32)
    requires
        forall|id: i32| measure.requires((id,)),
    ensures
        extent <= 0 || target <= frozen ==> r == current,
        !(extent <= 0 || target <= frozen) && target < current ==> r == target,
        !(extent <= 0 || target <= frozen || target < current) ==> exists|hs: Seq<i32>, c: int|
            #[trigger] back_walk_total(measure, target as int, frozen as int, extent as int, hs, c) && r
                == imax(current as int, target - c),
{
    let mref = &measure;
    let lifted = move |id: i32| -> (h: Option<i32>)
        requires
            mref.requires((id,)),
        ensures
            exists|v: i32| h == Some(v) && call_ensures(mref, (id,), v),
        { Some(mref(id)) };
    match origin_showing(target, current, frozen, extent, lifted) {
        Some(v) => {
            proof {
                if !(extent <= 0 || target <= frozen || target < current) {
                    let (hs, c) = choose|hs: Seq<i32>, c: int|
                        #[trigger] back_walk(lifted, target as int, frozen as int, extent as int, hs, c)
                            && v == imax(current as int, target - c);
                    assert forall|i: int| 0 <= i < hs.len() implies call_ensures(
                        measure,
                        ((target - i) as i32,),
                        #[trigger] hs[i],
                    ) by {
                        assert(call_ensures(lifted, ((target - i) as i32,), Some(hs[i])));
                    }
                    assert(back_walk_total(measure, target as int, frozen as int, extent as int, hs, c));
                }
            }
            v
        },
        None => {
            proof {
                let i = choose|i: int| 0 <= i < target - frozen && #[trigger] failed_read(lifted, target - i);
                assert(call_ensures(lifted, ((target - i) as i32,), None));
            }
            current
        },
    }
}

impl Chrome {
    /// The scrollable pane: everything past the frozen bands, running to
    /// the canvas edge; collapsed to zero extent (never negative) when the
    /// frozen bands fill the canvas.
    pub fn scroll_pane_rect(&self) -> (r: PixelRect)
        requires
            self.wf(),
        ensures
            r == (PixelRect {
                top_left: Point { x: self.pane_set.cols.frozen_offset, y: self.pane_set.rows.frozen_offset },
                width: imax(self.logical_width - self.pane_set.cols.frozen_offset, 0) as i32,
                height: imax(self.logical_height - self.pane_set.rows.frozen_offset, 0) as i32,
            }),
    {
        let x = self.pane_set.cols.frozen_offset;
        let y = self.pane_set.rows.frozen_offset;
        let (w, h) = self.canvas_size();
        let width = if w - x >= 0 { w - x } else { 0 };
        let height = if h - y >= 0 { h - y } else { 0 };
        PixelRect { top_left: Point { x, y }, width, height }
    }

    /// The cell under pixel `(x, y)`, ignoring every decoration; `None` in
    /// the chrome or off the grid.
    pub fn pixel_to_cell(&self, x: i32, y: i32) -> (r: Option<(i32, i32)>)
        ensures
            r == cell_under(*self, x as int, y as int),
    {
        let row = match self.pane_set.rows.pixel_to_id(y) {
            Some(r) => r,
            None => {
                return None;
            },
        };
        let col = match self.pane_set.cols.pixel_to_id(x) {
            Some(c) => c,
            None => {
                return None;
            },
        };
        Some((row, col))
    }
}

/// The scroll origin the renderer honours for `view`: the first scroll id
/// on both axes, a failed frozen-count read counting as no frozen band.
pub fn legal_scroll_origin(view: CanvasView, frozen_rows: Option<i32>, frozen_cols: Option<i32>) -> (r: (i32, i32))
    requires
        match frozen_rows {
            Some(n) => n < i32::MAX,
            None => true,
        },
        match frozen_cols {
            Some(n) => n < i32::MAX,
            None => true,
        },
    ensures
        r.0 == spec_scroll_first(
            match frozen_rows {
                Some(n) => n as int,
                None => 0,
            },
            view.top_row as int,
        ),
        r.1 == spec_scroll_first(
            match frozen_cols {
                Some(n) => n as int,
                None => 0,
            },
            view.left_column as int,
        ),
{
    let fr = match frozen_rows {
        Some(n) => n,
        None => 0,
    };
    let fc = match frozen_cols {
        Some(n) => n,
        None => 0,
    };
    (scroll_first(fr, view.top_row), scroll_first(fc, view.left_column))
}

/// The smallest `(top_row, left_column)` that brings `(row, column)` fully
/// into the scroll pane of `frame`, or `None` when the view already shows
/// it or a height/width read failed. A frozen target never scrolls its
/// axis.
pub fn scroll_to_show<F: Fn(i32) -> Option<i32>, G: Fn(i32) -> Option<i32>>(
    frame: &Chrome,
    view: CanvasView,
    row: i32,
    column: i32,
    measure_row: F,
    measure_col: G,
) -> (r: Option<(i32, i32)>)
    requires
        frame.wf(),
        forall|id: i32| measure_row.requires((id,)),
        forall|id: i32| measure_col.requires((id,)),
    ensures
        ({
            let pane_h = imax(frame.logical_height - frame.pane_set.rows.frozen_offset, 0) as i32;
            let pane_w = imax(frame.logical_width - frame.pane_set.cols.frozen_offset, 0) as i32;
            exists|top: Option<i32>|
                #[trigger] origin_outcome(
                    measure_row,
                    row,
                    view.top_row,
                    frame.pane_set.rows.frozen@.len() as i32,
                    pane_h,
                    top,
                ) && match top {
                    None => r is None,
                    Some(t) => exists|left: Option<i32>|
                        #[trigger] origin_outcome(
                            measure_col,
                            column,
                            view.left_column,
                            frame.pane_set.cols.frozen@.len() as i32,
                            pane_w,
                            left,
                        ) && match left {
                            None => r is None,
                            Some(l) => r == if t == view.top_row && l == view.left_column {
                                None
                            } else {
                                Some((t, l))
                            },
                        },
                }
        }),
{
    let pane = frame.scroll_pane_rect();
    let top = origin_showing(row, view.top_row, frame.pane_set.rows.frozen_count(), pane.height, measure_row);
    proof {
        assert(origin_outcome(
            measure_row,
            row,
            view.top_row,
            frame.pane_set.rows.frozen@.len() as i32,
            imax(frame.logical_height - frame.pane_set.rows.frozen_offset, 0) as i32,
            top,
        ));
    }
    let t = match top {
        Some(t) => t,
        None => {
            return None;
        },
    };
    let left = origin_showing(column, view.left_column, frame.pane_set.cols.frozen_count(), pane.width, measure_col);
    proof {
        assert(origin_outcome(
            measure_col,
            column,
            view.left_column,
            frame.pane_set.cols.frozen@.len() as i32,
            imax(frame.logical_width - frame.pane_set.cols.frozen_offset, 0) as i32,
            left,
        ));
    }
    let l = match left {
        Some(l) => l,
        None => {
            return None;
        },
    };
    if t == view.top_row && l == view.left_column {
        None
    } else {
        Some((t, l))
    }
}

} // verus!
