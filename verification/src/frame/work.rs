//! The work algebra: one typed value describing everything queued for the
//! next paint attempt. Every setter marks intent on it and a paint attempt
//! consumes it whole, so layers hold no dirty state of their own.
//!
//! `PendingWork`'s fields stay private: its normalization and merge rules
//! cannot be bypassed by constructing a value directly.

use vstd::prelude::*;

use crate::chrome::mask::{PaneRegionMask, mask_bits, mask_of_bits};
use crate::frame::flags::{WorkFlags, flags_of_bits};

verus! {

/// Inclusive row band in `RCRange` row coordinates.
#[derive(Clone, Copy, Debug, PartialEq, Eq, Structural)]
pub struct RowSpan {
    pub r1: i32,
    pub r2: i32,
}

impl RowSpan {
    /// The band `r1..=r2`, as given.
    pub fn new(r1: i32, r2: i32) -> (s: Self)
        ensures
            s == (RowSpan { r1, r2 }),
    {
        RowSpan { r1, r2 }
    }

    /// Corners ordered: `r1 <= r2`. Callers may hand spans in either order;
    /// a reversed span would survive merging and then intersect to nothing
    /// at paint time.
    pub fn normalized(self) -> (s: Self)
        ensures
            s.r1 == if self.r1 <= self.r2 { self.r1 } else { self.r2 },
            s.r2 == if self.r1 <= self.r2 { self.r2 } else { self.r1 },
    {
        if self.r1 <= self.r2 {
            self
        } else {
            RowSpan { r1: self.r2, r2: self.r1 }
        }
    }
}

/// Above this many disjoint bands a clipped repaint stops paying for itself
/// against one whole-pane walk.
pub const MAX_DAMAGE_SPANS: usize = 8;

/// Whether the geometry must be rebuilt.
#[derive(Clone, Copy, Debug, Default, PartialEq, Eq, Structural)]
pub enum GeometryWork {
    #[default]
    Clean,
    Rebuild,
}

/// Row-band or pane-mask content work. Rows, not cell rectangles, are the
/// repaint unit: a row's shared border may be painted from a neighbouring
/// row and cell text overflows horizontally, so a full-width band is the
/// smallest repaint unit that cannot leave stale pixels.
#[derive(Debug)]
pub enum ContentWork {
    Clean,
    Rows { sheet: u32, spans: Vec<RowSpan> },
    Panes(PaneRegionMask),
}

/// Mathematical model of [`ContentWork`].
pub enum ContentModel {
    Clean,
    Rows { sheet: u32, spans: Seq<RowSpan> },
    Panes(PaneRegionMask),
}

impl View for ContentWork {
    type V = ContentModel;

    open spec fn view(&self) -> ContentModel {
        match self {
            ContentWork::Clean => ContentModel::Clean,
            ContentWork::Rows { sheet, spans } => ContentModel::Rows { sheet: *sheet, spans: spans@ },
            ContentWork::Panes(m) => ContentModel::Panes(*m),
        }
    }
}

/// A band with ordered corners.
pub open spec fn span_ok(s: RowSpan) -> bool {
    s.r1 <= s.r2
}

/// Every band has ordered corners.
pub open spec fn spans_ok(s: Seq<RowSpan>) -> bool {
    forall|i: int| 0 <= i < s.len() ==> span_ok(#[trigger] s[i])
}

/// Whether row `r` lies in some band of `s`.
pub open spec fn in_some_span(s: Seq<RowSpan>, r: int) -> bool {
    exists|i: int| 0 <= i < s.len() && (#[trigger] s[i]).r1 <= r <= s[i].r2
}

/// The set of rows the bands of `s` cover.
pub open spec fn covered(s: Seq<RowSpan>) -> Set<int> {
    Set::new(|r: int| in_some_span(s, r))
}

/// Bands ordered, non-empty, and separated by at least one uncovered row:
/// the unique shortest description of the rows they cover.
pub open spec fn canonical(m: Seq<RowSpan>) -> bool {
    &&& spans_ok(m)
    &&& forall|i: int| 0 <= i < m.len() - 1 ==> #[trigger] m[i].r2 + 1 < m[i + 1].r1
}

/// `m` is the canonical band list of row set `rows`.
pub open spec fn canonical_cover(m: Seq<RowSpan>, rows: Set<int>) -> bool {
    canonical(m) && covered(m) == rows
}

/// Normalized row content for `spans` on `sheet`: the canonical bands of
/// the rows they cover, degraded to all panes past
/// [`MAX_DAMAGE_SPANS`] bands.
pub open spec fn spec_normalize_rows(sheet: u32, spans: Seq<RowSpan>) -> ContentModel {
    let rows = covered(spans);
    if exists|m: Seq<RowSpan>| canonical_cover(m, rows) {
        let m = choose|m: Seq<RowSpan>| canonical_cover(m, rows);
        if m.len() > MAX_DAMAGE_SPANS {
            ContentModel::Panes(PaneRegionMask::All)
        } else {
            ContentModel::Rows { sheet, spans: m }
        }
    } else {
        ContentModel::Panes(PaneRegionMask::All)
    }
}

/// Which categories of `w` carry work, as diagnostic flags.
pub open spec fn work_flags_of(w: WorkModel) -> WorkFlags {
    flags_of_bits(
        (if w.view { 1u8 } else { 0u8 }) | (if !(w.content is Clean) { 2u8 } else { 0u8 }) | (if w.geometry {
            4u8
        } else {
            0u8
        }) | (if w.overlay { 8u8 } else { 0u8 }),
    )
}

/// The content merge table:
///
/// | existing | incoming | result |
/// | --- | --- | --- |
/// | `Clean` | anything | incoming |
/// | `Rows(A)` | rows on `A` | normalized, merged spans |
/// | `Rows(A)` | rows on another sheet | `Panes(ALL)` |
/// | `Rows` | any pane work | `Panes(ALL)` |
/// | `Panes(a)` | `Panes(b)` | `Panes(a \| b)` |
/// | `Panes` | `Rows` | `Panes(ALL)`; row precision never returns |
pub open spec fn spec_content_merge(a: ContentModel, b: ContentModel) -> ContentModel {
    match (a, b) {
        (ContentModel::Clean, incoming) => incoming,
        (existing, ContentModel::Clean) => existing,
        (ContentModel::Rows { sheet: s1, spans: x }, ContentModel::Rows { sheet: s2, spans: y }) => {
            if s1 == s2 {
                spec_normalize_rows(s1, x + y)
            } else {
                ContentModel::Panes(PaneRegionMask::All)
            }
        },
        (ContentModel::Panes(x), ContentModel::Panes(y)) => ContentModel::Panes(
            mask_of_bits(mask_bits(x) | mask_bits(y)),
        ),
        _ => ContentModel::Panes(PaneRegionMask::All),
    }
}

/// Content that a `PendingWork` can hold: row work is canonical and within
/// the band cap.
pub open spec fn content_wf(c: ContentModel) -> bool {
    match c {
        ContentModel::Rows { sheet, spans } => canonical(spans) && spans.len() <= MAX_DAMAGE_SPANS,
        _ => true,
    }
}

/// `std::slice::sort_by_key` with the band's first row as key: sorts in
/// place, stably, into ascending `r1` order, keeping the same bands.
#[verifier::external_body]
fn sort_by_first_row(spans: &mut Vec<RowSpan>)
    ensures
        final(spans)@.to_multiset() == old(spans)@.to_multiset(),
        final(spans)@.len() == old(spans)@.len(),
        forall|i: int, j: int| 0 <= i < j < final(spans)@.len() ==> final(spans)@[i].r1 <= final(spans)@[j].r1,
{
    spans.sort_by_key(|span| span.r1)
}

/// Bands `i < j` of a canonical list are separated by an uncovered row.
pub proof fn lemma_canonical_ordered(m: Seq<RowSpan>, i: int, j: int)
    requires
        canonical(m),
        0 <= i < j < m.len(),
    ensures
        m[i].r2 + 1 < m[j].r1,
        m[i].r1 <= m[i].r2,
    decreases j - i,
{
    if j > i + 1 {
        lemma_canonical_ordered(m, i, j - 1);
        assert(m[j - 1].r2 + 1 < m[j].r1);
        assert(span_ok(m[j - 1]));
    }
}

/// A row set has at most one canonical band list.
pub proof fn lemma_canonical_unique(a: Seq<RowSpan>, b: Seq<RowSpan>)
    requires
        canonical(a),
        canonical(b),
        covered(a) == covered(b),
    ensures
        a == b,
    decreases a.len() + b.len(),
{
    if a.len() == 0 && b.len() == 0 {
        assert(a =~= b);
        return;
    }
    if a.len() == 0 {
        assert(span_ok(b[0]));
        assert(covered(b).contains(b[0].r1 as int));
        assert(!covered(a).contains(b[0].r1 as int));
        return;
    }
    if b.len() == 0 {
        assert(span_ok(a[0]));
        assert(covered(a).contains(a[0].r1 as int));
        assert(!covered(b).contains(a[0].r1 as int));
        return;
    }
    let x = a[0];
    let y = b[0];
    assert(span_ok(x) && span_ok(y));
    lemma_first_band_is_min(a);
    lemma_first_band_is_min(b);
    assert(covered(b).contains(y.r1 as int));
    assert(covered(a).contains(x.r1 as int));
    assert(x.r1 == y.r1);
    if x.r2 < y.r2 {
        assert(covered(b).contains(x.r2 + 1)) by {
            assert(in_some_span(b, x.r2 + 1)) by {
                assert(b[0].r1 <= x.r2 + 1 <= b[0].r2);
            }
        }
        lemma_first_band_gap(a);
        assert(false);
    }
    if y.r2 < x.r2 {
        assert(covered(a).contains(y.r2 + 1)) by {
            assert(in_some_span(a, y.r2 + 1)) by {
                assert(a[0].r1 <= y.r2 + 1 <= a[0].r2);
            }
        }
        lemma_first_band_gap(b);
        assert(false);
    }
    assert(x == y);
    let ar = a.drop_first();
    let br = b.drop_first();
    lemma_drop_first_canonical(a);
    lemma_drop_first_canonical(b);
    lemma_covered_drop_first(a);
    lemma_covered_drop_first(b);
    assert(covered(ar) =~= covered(br));
    lemma_canonical_unique(ar, br);
    assert(a =~= seq![x] + ar);
    assert(b =~= seq![y] + br);
}

/// Every covered row of a canonical list is at or past its first band's
/// first row.
proof fn lemma_first_band_is_min(m: Seq<RowSpan>)
    requires
        canonical(m),
        m.len() > 0,
    ensures
        forall|r: int| covered(m).contains(r) ==> m[0].r1 <= r,
{
    assert forall|r: int| covered(m).contains(r) implies m[0].r1 <= r by {
        let i = choose|i: int| 0 <= i < m.len() && (#[trigger] m[i]).r1 <= r <= m[i].r2;
        if i > 0 {
            lemma_canonical_ordered(m, 0, i);
        }
    }
}

/// The row right after a canonical list's first band is uncovered.
proof fn lemma_first_band_gap(m: Seq<RowSpan>)
    requires
        canonical(m),
        m.len() > 0,
    ensures
        !covered(m).contains(m[0].r2 + 1),
{
    if covered(m).contains(m[0].r2 + 1) {
        let r = m[0].r2 + 1;
        let i = choose|i: int| 0 <= i < m.len() && (#[trigger] m[i]).r1 <= r <= m[i].r2;
        if i > 0 {
            lemma_canonical_ordered(m, 0, i);
        }
    }
}

proof fn lemma_drop_first_canonical(m: Seq<RowSpan>)
    requires
        canonical(m),
        m.len() > 0,
    ensures
        canonical(m.drop_first()),
{
    let d = m.drop_first();
    assert forall|i: int| 0 <= i < d.len() implies span_ok(#[trigger] d[i]) by {
        assert(d[i] == m[i + 1]);
    }
    assert forall|i: int| 0 <= i < d.len() - 1 implies #[trigger] d[i].r2 + 1 < d[i + 1].r1 by {
        assert(d[i] == m[i + 1]);
        assert(d[i + 1] == m[i + 2]);
    }
}

/// Removing a canonical list's first band removes exactly its rows.
proof fn lemma_covered_drop_first(m: Seq<RowSpan>)
    requires
        canonical(m),
        m.len() > 0,
    ensures
        forall|r: int| #[trigger] covered(m.drop_first()).contains(r) <==> (covered(m).contains(r) && !(
        m[0].r1 <= r <= m[0].r2)),
{
    let d = m.drop_first();
    assert forall|r: int| #[trigger] covered(d).contains(r) <==> (covered(m).contains(r) && !(m[0].r1
        <= r <= m[0].r2)) by {
        if covered(d).contains(r) {
            let i = choose|i: int| 0 <= i < d.len() && (#[trigger] d[i]).r1 <= r <= d[i].r2;
            assert(d[i] == m[i + 1]);
            lemma_canonical_ordered(m, 0, i + 1);
            assert(in_some_span(m, r));
        }
        if covered(m).contains(r) && !(m[0].r1 <= r <= m[0].r2) {
            let i = choose|i: int| 0 <= i < m.len() && (#[trigger] m[i]).r1 <= r <= m[i].r2;
            assert(i > 0);
            assert(d[i - 1] == m[i]);
            assert(in_some_span(d, r));
        }
    }
}

/// Two band lists with the same bands cover the same rows.
proof fn lemma_covered_same_multiset(a: Seq<RowSpan>, b: Seq<RowSpan>)
    requires
        a.to_multiset() == b.to_multiset(),
    ensures
        covered(a) == covered(b),
{
    broadcast use vstd::seq_lib::group_to_multiset_ensures;

    assert forall|r: int| #[trigger] covered(a).contains(r) <==> covered(b).contains(r) by {
        if covered(a).contains(r) {
            let i = choose|i: int| 0 <= i < a.len() && (#[trigger] a[i]).r1 <= r <= a[i].r2;
            assert(a.contains(a[i]));
            assert(a.to_multiset().count(a[i]) > 0);
            assert(b.contains(a[i]));
            let j = choose|j: int| 0 <= j < b.len() && b[j] == a[i];
            assert(in_some_span(b, r)) by {
                assert(b[j].r1 <= r <= b[j].r2);
            }
        }
        if covered(b).contains(r) {
            let i = choose|i: int| 0 <= i < b.len() && (#[trigger] b[i]).r1 <= r <= b[i].r2;
            assert(b.contains(b[i]));
            assert(b.to_multiset().count(b[i]) > 0);
            assert(a.contains(b[i]));
            let j = choose|j: int| 0 <= j < a.len() && a[j] == b[i];
            assert(in_some_span(a, r)) by {
                assert(a[j].r1 <= r <= a[j].r2);
            }
        }
    }
    assert(covered(a) =~= covered(b));
}

/// A canonical list pins down the normalized content of its rows.
pub proof fn lemma_normalize_of_canonical(sheet: u32, spans: Seq<RowSpan>, m: Seq<RowSpan>)
    requires
        canonical_cover(m, covered(spans)),
    ensures
        spec_normalize_rows(sheet, spans) == if m.len() > MAX_DAMAGE_SPANS {
            ContentModel::Panes(PaneRegionMask::All)
        } else {
            ContentModel::Rows { sheet, spans: m }
        },
{
    let rows = covered(spans);
    assert(exists|x: Seq<RowSpan>| canonical_cover(x, rows));
    let c = choose|x: Seq<RowSpan>| canonical_cover(x, rows);
    lemma_canonical_unique(c, m);
}

impl ContentWork {
    /// Sort, merge overlapping/adjacent bands, and degrade to `Panes(ALL)`
    /// once the disjoint count stops paying for itself against one
    /// whole-pane walk.
    pub fn normalize_rows(sheet: u32, spans: Vec<RowSpan>) -> (c: Self)
        requires
            spans_ok(spans@),
        ensures
            c@ == spec_normalize_rows(sheet, spans@),
            content_wf(c@),
    {
        let ghost input = spans@;
        let mut spans = spans;
        sort_by_first_row(&mut spans);
        proof {
            lemma_covered_same_multiset(spans@, input);
            broadcast use vstd::seq_lib::group_to_multiset_ensures;
            assert forall|i: int| 0 <= i < spans@.len() implies span_ok(#[trigger] spans@[i]) by {
                assert(spans@.contains(spans@[i]));
                assert(spans@.to_multiset().count(spans@[i]) > 0);
                assert(input.contains(spans@[i]));
            }
        }
        let mut merged: Vec<RowSpan> = Vec::new();
        let mut i: usize = 0;
        while i < spans.len()
            invariant
                0 <= i <= spans@.len(),
                spans_ok(spans@),
                forall|a: int, b: int| 0 <= a < b < spans@.len() ==> spans@[a].r1 <= spans@[b].r1,
                canonical(merged@),
                covered(merged@) == covered(spans@.take(i as int)),
                i > 0 ==> merged@.len() > 0,
                merged@.len() > 0 ==> forall|k: int|
                    i <= k < spans@.len() ==> merged@.last().r1 <= #[trigger] spans@[k].r1,
            decreases spans.len() - i,
        {
            let span = spans[i];
            let ghost before = merged@;
            proof {
                assert(span_ok(span));
            }
            let n = merged.len();
            if n > 0 && (span.r1 as i64) <= (merged[n - 1].r2 as i64) + 1 {
                let last = merged[n - 1];
                let r2 = if last.r2 >= span.r2 { last.r2 } else { span.r2 };
                merged.set(n - 1, RowSpan { r1: last.r1, r2 });
                proof {
                    lemma_cover_extend_last(before, span, r2);
                    assert(merged@ == before.update(n - 1, RowSpan { r1: last.r1, r2 }));
                    assert(forall|r: int| #[trigger] covered(merged@).contains(r) <==> (covered(before).contains(r) || (span.r1 <= r <= span.r2)));
                }
            } else {
                merged.push(span);
                proof {
                    lemma_cover_push(before, span);
                    assert(merged@ == before.push(span));
                }
            }
            proof {
                lemma_cover_take_step(spans@, i as int);
                assert(spans@[i as int] == span);
                assert forall|r: int| #[trigger] covered(merged@).contains(r) <==> covered(
                    spans@.take(i as int + 1),
                ).contains(r) by {
                    assert(covered(before).contains(r) == covered(spans@.take(i as int)).contains(r));
                }
                assert(covered(merged@) =~= covered(spans@.take(i as int + 1)));
            }
            i = i + 1;
        }
        proof {
            assert(spans@.take(spans@.len() as int) =~= spans@);
            lemma_normalize_of_canonical(sheet, input, merged@);
        }
        if merged.len() > MAX_DAMAGE_SPANS {
            ContentWork::Panes(PaneRegionMask::All)
        } else {
            ContentWork::Rows { sheet, spans: merged }
        }
    }
}

/// Rows of `s.take(i + 1)` are those of `s.take(i)` plus band `s[i]`.
proof fn lemma_cover_take_step(s: Seq<RowSpan>, i: int)
    requires
        0 <= i < s.len(),
    ensures
        forall|r: int| #[trigger] covered(s.take(i + 1)).contains(r) <==> (covered(s.take(i)).contains(r)
            || (s[i].r1 <= r <= s[i].r2)),
{
    let a = s.take(i);
    let b = s.take(i + 1);
    assert forall|r: int| #[trigger] covered(b).contains(r) <==> (covered(a).contains(r) || (s[i].r1 <= r
        <= s[i].r2)) by {
        if covered(b).contains(r) {
            let k = choose|k: int| 0 <= k < b.len() && (#[trigger] b[k]).r1 <= r <= b[k].r2;
            if k < i {
                assert(a[k] == b[k]);
                assert(in_some_span(a, r));
            }
        }
        if covered(a).contains(r) {
            let k = choose|k: int| 0 <= k < a.len() && (#[trigger] a[k]).r1 <= r <= a[k].r2;
            assert(a[k] == b[k]);
            assert(in_some_span(b, r));
        }
        if s[i].r1 <= r <= s[i].r2 {
            assert(b[i] == s[i]);
            assert(in_some_span(b, r));
        }
    }
}

/// Pushing a band that starts past the last band's end plus one keeps the
/// list canonical and adds exactly its rows.
proof fn lemma_cover_push(m: Seq<RowSpan>, span: RowSpan)
    requires
        canonical(m),
        span_ok(span),
        m.len() > 0 ==> m.last().r2 + 1 < span.r1,
    ensures
        canonical(m.push(span)),
        forall|r: int| #[trigger] covered(m.push(span)).contains(r) <==> (covered(m).contains(r) || (
        span.r1 <= r <= span.r2)),
{
    let p = m.push(span);
    assert forall|i: int| 0 <= i < p.len() implies span_ok(#[trigger] p[i]) by {
        if i < m.len() {
            assert(p[i] == m[i]);
        }
    }
    assert forall|i: int| 0 <= i < p.len() - 1 implies #[trigger] p[i].r2 + 1 < p[i + 1].r1 by {
        assert(p[i] == m[i]);
        if i + 1 < m.len() {
            assert(p[i + 1] == m[i + 1]);
        }
    }
    assert forall|r: int| #[trigger] covered(p).contains(r) <==> (covered(m).contains(r) || (span.r1 <= r
        <= span.r2)) by {
        if covered(p).contains(r) {
            let k = choose|k: int| 0 <= k < p.len() && (#[trigger] p[k]).r1 <= r <= p[k].r2;
            if k < m.len() {
                assert(p[k] == m[k]);
                assert(in_some_span(m, r));
            }
        }
        if covered(m).contains(r) {
            let k = choose|k: int| 0 <= k < m.len() && (#[trigger] m[k]).r1 <= r <= m[k].r2;
            assert(p[k] == m[k]);
            assert(in_some_span(p, r));
        }
        if span.r1 <= r <= span.r2 {
            assert(p[m.len() as int] == span);
            assert(in_some_span(p, r));
        }
    }
}

/// Widening the last band over a band that starts inside it or right after
/// it keeps the list canonical and adds exactly that band's rows.
proof fn lemma_cover_extend_last(m: Seq<RowSpan>, span: RowSpan, r2: i32)
    requires
        r2 == if m.last().r2 >= span.r2 { m.last().r2 } else { span.r2 },
        canonical(m),
        span_ok(span),
        m.len() > 0,
        m.last().r1 <= span.r1,
        span.r1 <= m.last().r2 + 1,
    ensures
        canonical(m.update(m.len() - 1, RowSpan { r1: m.last().r1, r2 })),
        forall|r: int| #[trigger] covered(m.update(m.len() - 1, RowSpan { r1: m.last().r1, r2 })).contains(r)
            <==> (covered(m).contains(r) || (span.r1 <= r <= span.r2)),
{
    let last = m.last();
    let n = m.len() - 1;
    let p = m.update(n, RowSpan { r1: last.r1, r2 });
    assert(span_ok(last));
    assert forall|i: int| 0 <= i < p.len() implies span_ok(#[trigger] p[i]) by {
        if i < n {
            assert(p[i] == m[i]);
        }
    }
    assert forall|i: int| 0 <= i < p.len() - 1 implies #[trigger] p[i].r2 + 1 < p[i + 1].r1 by {
        assert(p[i] == m[i]);
        if i + 1 < n {
            assert(p[i + 1] == m[i + 1]);
        } else {
            assert(m[i].r2 + 1 < m[i + 1].r1);
        }
    }
    assert forall|r: int| #[trigger] covered(p).contains(r) <==> (covered(m).contains(r) || (span.r1 <= r
        <= span.r2)) by {
        if covered(p).contains(r) {
            let k = choose|k: int| 0 <= k < p.len() && (#[trigger] p[k]).r1 <= r <= p[k].r2;
            if k < n {
                assert(p[k] == m[k]);
                assert(in_some_span(m, r));
            } else if r <= last.r2 {
                assert(in_some_span(m, r)) by {
                    assert(m[n].r1 <= r <= m[n].r2);
                }
            }
        }
        if covered(m).contains(r) {
            let k = choose|k: int| 0 <= k < m.len() && (#[trigger] m[k]).r1 <= r <= m[k].r2;
            if k < n {
                assert(p[k] == m[k]);
            }
            assert(in_some_span(p, r)) by {
                assert(p[k].r1 <= r <= p[k].r2);
            }
        }
        if span.r1 <= r <= span.r2 {
            assert(in_some_span(p, r)) by {
                assert(p[n].r1 <= r <= p[n].r2);
            }
        }
    }
}

/// Elementwise equality of two band lists.
fn spans_equal(a: &Vec<RowSpan>, b: &Vec<RowSpan>) -> (r: bool)
    ensures
        r == (a@ == b@),
{
    if a.len() != b.len() {
        return false;
    }
    let mut i: usize = 0;
    while i < a.len()
        invariant
            a@.len() == b@.len(),
            0 <= i <= a@.len(),
            forall|k: int| 0 <= k < i ==> a@[k] == b@[k],
        decreases a.len() - i,
    {
        if a[i] != b[i] {
            return false;
        }
        i = i + 1;
    }
    proof {
        assert(a@ =~= b@);
    }
    true
}

impl ContentWork {
    /// Fold `other` into `self` by the content merge table.
    pub fn merge(self, other: Self) -> (c: Self)
        requires
            content_wf(self@),
            content_wf(other@),
        ensures
            c@ == spec_content_merge(self@, other@),
            content_wf(c@),
    {
        match (self, other) {
            (ContentWork::Clean, incoming) => incoming,
            (existing, ContentWork::Clean) => existing,
            (
                ContentWork::Rows { sheet: s1, spans: mut existing },
                ContentWork::Rows { sheet: s2, spans: mut incoming },
            ) => {
                if s1 == s2 {
                    let ghost x = existing@;
                    let ghost y = incoming@;
                    existing.append(&mut incoming);
                    proof {
                        assert(existing@ == x + y);
                        assert forall|i: int| 0 <= i < existing@.len() implies span_ok(
                            #[trigger] existing@[i],
                        ) by {
                            if i < x.len() {
                                assert(existing@[i] == x[i]);
                            } else {
                                assert(existing@[i] == y[i - x.len()]);
                            }
                        }
                    }
                    Self::normalize_rows(s1, existing)
                } else {
                    ContentWork::Panes(PaneRegionMask::All)
                }
            },
            (ContentWork::Panes(a), ContentWork::Panes(b)) => ContentWork::Panes(a.union(b)),
            (ContentWork::Rows { .. }, ContentWork::Panes(_)) => ContentWork::Panes(PaneRegionMask::All),
            (ContentWork::Panes(_), ContentWork::Rows { .. }) => ContentWork::Panes(PaneRegionMask::All),
        }
    }

    /// Whether this is the `Clean` variant.
    pub fn is_clean(&self) -> (b: bool)
        ensures
            b == (self@ is Clean),
    {
        match self {
            ContentWork::Clean => true,
            _ => false,
        }
    }
}

impl PartialEq for ContentWork {
    fn eq(&self, other: &Self) -> (r: bool) {
        match (self, other) {
            (ContentWork::Clean, ContentWork::Clean) => true,
            (ContentWork::Rows { sheet: s1, spans: a }, ContentWork::Rows { sheet: s2, spans: b }) => {
                *s1 == *s2 && spans_equal(a, b)
            },
            (ContentWork::Panes(a), ContentWork::Panes(b)) => *a == *b,
            _ => false,
        }
    }
}

impl Eq for ContentWork {}

impl vstd::std_specs::cmp::PartialEqSpecImpl for ContentWork {
    open spec fn obeys_eq_spec() -> bool {
        true
    }

    open spec fn eq_spec(&self, other: &Self) -> bool {
        self@ == other@
    }
}

impl Clone for ContentWork {
    fn clone(&self) -> (c: Self)
        ensures
            c@ == self@,
    {
        match self {
            ContentWork::Clean => ContentWork::Clean,
            ContentWork::Rows { sheet, spans } => ContentWork::Rows { sheet: *sheet, spans: copy_spans(spans) },
            ContentWork::Panes(m) => ContentWork::Panes(*m),
        }
    }
}

/// A fresh Vec holding the same bands.
pub fn copy_spans(spans: &Vec<RowSpan>) -> (v: Vec<RowSpan>)
    ensures
        v@ == spans@,
{
    let mut v: Vec<RowSpan> = Vec::new();
    let mut i: usize = 0;
    while i < spans.len()
        invariant
            0 <= i <= spans@.len(),
            v@ == spans@.take(i as int),
        decreases spans.len() - i,
    {
        v.push(spans[i]);
        proof {
            assert(spans@.take(i as int + 1) =~= spans@.take(i as int).push(spans@[i as int]));
        }
        i = i + 1;
    }
    proof {
        assert(spans@.take(spans@.len() as int) =~= spans@);
    }
    v
}

/// Mathematical model of [`PendingWork`].
pub struct WorkModel {
    pub geometry: bool,
    pub view: bool,
    pub content: ContentModel,
    pub overlay: bool,
}

/// The empty work value: nothing queued.
pub open spec fn empty_work() -> WorkModel {
    WorkModel { geometry: false, view: false, content: ContentModel::Clean, overlay: false }
}

/// Folding `b` into `a`: geometry, view and overlay escalate by OR; content
/// follows [`spec_content_merge`].
pub open spec fn spec_work_merge(a: WorkModel, b: WorkModel) -> WorkModel {
    WorkModel {
        geometry: a.geometry || b.geometry,
        view: a.view || b.view,
        content: spec_content_merge(a.content, b.content),
        overlay: a.overlay || b.overlay,
    }
}

/// Work that a `PendingWork` can hold.
pub open spec fn work_wf(w: WorkModel) -> bool {
    content_wf(w.content)
}

/// One typed value describing everything queued for the next paint
/// attempt: geometry rebuild, view movement, content damage, and overlay
/// repaint. Callers only see intent through the `mark_*` / `has_*` helpers,
/// so every producer routes through the same normalization and merge rules.
#[derive(Debug)]
pub struct PendingWork {
    geometry: GeometryWork,
    view: bool,
    content: ContentWork,
    overlay: bool,
}

impl View for PendingWork {
    type V = WorkModel;

    closed spec fn view(&self) -> WorkModel {
        WorkModel {
            geometry: self.geometry == GeometryWork::Rebuild,
            view: self.view,
            content: self.content@,
            overlay: self.overlay,
        }
    }
}

impl PendingWork {
    #[verifier::type_invariant]
    spec fn inv(self) -> bool {
        content_wf(self.content@)
    }

    /// Nothing queued.
    pub fn new() -> (w: Self)
        ensures
            w@ == empty_work(),
    {
        PendingWork { geometry: GeometryWork::Clean, view: false, content: ContentWork::Clean, overlay: false }
    }

    /// The held content is well-formed.
    pub fn wf(&self)
        ensures
            work_wf(self@),
    {
        proof {
            use_type_invariant(self);
        }
    }

    pub fn mark_geometry(&mut self)
        ensures
            final(self)@ == (WorkModel { geometry: true, ..old(self)@ }),
    {
        proof {
            use_type_invariant(&*self);
        }
        self.geometry = GeometryWork::Rebuild;
    }

    pub fn mark_view(&mut self)
        ensures
            final(self)@ == (WorkModel { view: true, ..old(self)@ }),
    {
        proof {
            use_type_invariant(&*self);
        }
        self.view = true;
    }

    pub fn mark_overlay(&mut self)
        ensures
            final(self)@ == (WorkModel { overlay: true, ..old(self)@ }),
    {
        proof {
            use_type_invariant(&*self);
        }
        self.overlay = true;
    }

    /// Take the content out, leaving `Clean`.
    fn take_content(&mut self) -> (c: ContentWork)
        ensures
            c@ == old(self)@.content,
            content_wf(c@),
            final(self)@ == (WorkModel { content: ContentModel::Clean, ..old(self)@ }),
    {
        proof {
            use_type_invariant(&*self);
        }
        let mut content = ContentWork::Clean;
        std::mem::swap(&mut content, &mut self.content);
        content
    }

    /// Record repaint damage to rows `span` (either corner order) on
    /// `sheet`.
    pub fn mark_rows(&mut self, sheet: u32, span: RowSpan)
        ensures
            final(self)@ == (WorkModel {
                content: spec_content_merge(
                    old(self)@.content,
                    ContentModel::Rows { sheet, spans: seq![normalize_span(span)] },
                ),
                ..old(self)@
            }),
    {
        let n = span.normalized();
        let mut spans: Vec<RowSpan> = Vec::new();
        spans.push(n);
        proof {
            assert(spans@ =~= seq![normalize_span(span)]);
            assert(canonical(spans@));
        }
        let incoming = ContentWork::Rows { sheet, spans };
        let existing = self.take_content();
        self.content = existing.merge(incoming);
    }

    /// Record content damage to the panes of `mask`. An empty mask still
    /// means pane content changed somewhere unknown, so it counts as all
    /// panes: a content notification never reads back as clean.
    pub fn mark_panes(&mut self, mask: PaneRegionMask)
        ensures
            final(self)@ == (WorkModel {
                content: spec_content_merge(
                    old(self)@.content,
                    ContentModel::Panes(
                        if mask == PaneRegionMask::Empty { PaneRegionMask::All } else { mask },
                    ),
                ),
                ..old(self)@
            }),
    {
        let mask = if mask.is_empty() { PaneRegionMask::All } else { mask };
        let existing = self.take_content();
        self.content = existing.merge(ContentWork::Panes(mask));
    }

    /// Record content damage to the whole visible grid.
    pub fn mark_all_content(&mut self)
        ensures
            final(self)@ == (WorkModel {
                content: spec_content_merge(old(self)@.content, ContentModel::Panes(PaneRegionMask::All)),
                ..old(self)@
            }),
    {
        self.mark_panes(PaneRegionMask::All);
    }

    pub fn has_geometry(&self) -> (b: bool)
        ensures
            b == self@.geometry,
    {
        self.geometry == GeometryWork::Rebuild
    }

    pub fn has_view(&self) -> (b: bool)
        ensures
            b == self@.view,
    {
        self.view
    }

    pub fn has_content(&self) -> (b: bool)
        ensures
            b == !(self@.content is Clean),
    {
        !self.content.is_clean()
    }

    pub fn has_overlay(&self) -> (b: bool)
        ensures
            b == self@.overlay,
    {
        self.overlay
    }

    /// Whether nothing is queued.
    pub fn is_empty(&self) -> (b: bool)
        ensures
            b == (self@ == empty_work()),
    {
        !self.has_geometry() && !self.view && self.content.is_clean() && !self.overlay
    }

    /// The queued content work.
    pub fn content(&self) -> (c: &ContentWork)
        ensures
            c@ == self@.content,
    {
        &self.content
    }

    /// Folds `other` into `self`: geometry, view, and overlay escalate by
    /// OR; content follows the content merge table.
    pub fn merge(&mut self, other: Self)
        ensures
            final(self)@ == spec_work_merge(old(self)@, other@),
    {
        proof {
            use_type_invariant(&other);
            use_type_invariant(&*self);
        }
        let PendingWork { geometry, view, content, overlay } = other;
        if geometry == GeometryWork::Rebuild {
            self.geometry = GeometryWork::Rebuild;
        }
        self.view = self.view || view;
        self.overlay = self.overlay || overlay;
        let existing = self.take_content();
        self.content = existing.merge(content);
    }

    /// Diagnostic-only snapshot of which categories carry work.
    pub fn flags(&self) -> (f: WorkFlags)
        ensures
            f == work_flags_of(self@),
    {
        let v: u8 = if self.has_view() { 1 } else { 0 };
        let c: u8 = if self.has_content() { 2 } else { 0 };
        let g: u8 = if self.has_geometry() { 4 } else { 0 };
        let o: u8 = if self.has_overlay() { 8 } else { 0 };
        WorkFlags::from_bits_truncate(v | c | g | o)
    }
}

/// `span` with ordered corners.
pub open spec fn normalize_span(span: RowSpan) -> RowSpan {
    if span.r1 <= span.r2 { span } else { RowSpan { r1: span.r2, r2: span.r1 } }
}

impl Default for PendingWork {
    fn default() -> (w: Self)
        ensures
            w@ == empty_work(),
    {
        PendingWork::new()
    }
}

impl Clone for PendingWork {
    fn clone(&self) -> (w: Self)
        ensures
            w@ == self@,
    {
        proof {
            use_type_invariant(self);
        }
        PendingWork {
            geometry: self.geometry,
            view: self.view,
            content: self.content.clone(),
            overlay: self.overlay,
        }
    }
}

impl PartialEq for PendingWork {
    fn eq(&self, other: &Self) -> (r: bool) {
        self.geometry == other.geometry && self.view == other.view && self.content == other.content
            && self.overlay == other.overlay
    }
}

impl Eq for PendingWork {}

impl vstd::std_specs::cmp::PartialEqSpecImpl for PendingWork {
    open spec fn obeys_eq_spec() -> bool {
        true
    }

    open spec fn eq_spec(&self, other: &Self) -> bool {
        self@ == other@
    }
}

} // verus!
