//! Algebraic laws of folding queued paint work together.

use vstd::prelude::*;

use crate::chrome::mask::{PaneRegionMask, lemma_mask_bits_roundtrip, lemma_mask_union_laws, mask_bits};
use crate::frame::work::{
    ContentModel, RowSpan, WorkModel, canonical_cover, content_wf, covered, empty_work,
    lemma_normalize_of_canonical, spec_content_merge, spec_normalize_rows, spec_work_merge, work_wf,
    in_some_span,
};

verus! {

/// Rows covered by two band lists together are the rows each covers.
pub proof fn lemma_covered_concat(p: Seq<RowSpan>, q: Seq<RowSpan>)
    ensures
        covered(p + q) == covered(p).union(covered(q)),
{
    let pq = p + q;
    assert forall|r: int| #[trigger] covered(pq).contains(r) <==> covered(p).union(covered(q)).contains(r) by {
        if covered(pq).contains(r) {
            let i = choose|i: int| 0 <= i < pq.len() && (#[trigger] pq[i]).r1 <= r <= pq[i].r2;
            if i < p.len() {
                assert(pq[i] == p[i]);
                assert(in_some_span(p, r));
            } else {
                assert(pq[i] == q[i - p.len()]);
                assert(in_some_span(q, r)) by {
                    assert(q[i - p.len()].r1 <= r <= q[i - p.len()].r2);
                }
            }
        }
        if covered(p).contains(r) {
            let i = choose|i: int| 0 <= i < p.len() && (#[trigger] p[i]).r1 <= r <= p[i].r2;
            assert(pq[i] == p[i]);
            assert(in_some_span(pq, r));
        }
        if covered(q).contains(r) {
            let i = choose|i: int| 0 <= i < q.len() && (#[trigger] q[i]).r1 <= r <= q[i].r2;
            assert(pq[i + p.len()] == q[i]);
            assert(in_some_span(pq, r)) by {
                assert(pq[i + p.len()].r1 <= r <= pq[i + p.len()].r2);
            }
        }
    }
    assert(covered(pq) =~= covered(p).union(covered(q)));
}

/// Normalized row content depends only on the rows covered, and row-precise
/// results are canonical covers of them.
pub proof fn lemma_normalize_rows_facts(sheet: u32, spans: Seq<RowSpan>, other: Seq<RowSpan>)
    ensures
        covered(spans) == covered(other) ==> spec_normalize_rows(sheet, spans) == spec_normalize_rows(
            sheet,
            other,
        ),
        spec_normalize_rows(sheet, spans) matches ContentModel::Rows { sheet: s, spans: m } ==> s
            == sheet && canonical_cover(m, covered(spans)),
        spec_normalize_rows(sheet, spans) matches ContentModel::Panes(k) ==> k == PaneRegionMask::All,
{
}

/// Row merges of `a`, `b`, `c` (all row work on one sheet) where exactly one
/// of the two pairwise merges degrades to all panes while the three-way
/// merge stays row-precise: the inputs on which grouping matters.
pub open spec fn assoc_counterexample(a: ContentModel, b: ContentModel, c: ContentModel) -> bool {
    match (a, b, c) {
        (
            ContentModel::Rows { sheet: s1, spans: x },
            ContentModel::Rows { sheet: s2, spans: y },
            ContentModel::Rows { sheet: s3, spans: z },
        ) => {
            &&& s1 == s2 && s2 == s3
            &&& (spec_normalize_rows(s1, x + y) is Panes) != (spec_normalize_rows(s1, y + z) is Panes)
            &&& spec_normalize_rows(s1, x + y + z) is Rows
        },
        _ => false,
    }
}

/// `PendingWork::default()` is the merge identity in both positions: an
/// empty value never adds work when folded in, and folding anything into
/// an empty value yields it unchanged.
pub proof fn lemma_merge_identity(w: WorkModel)
    ensures
        spec_work_merge(w, empty_work()) == w,
        spec_work_merge(empty_work(), w) == w,
{
}

/// Folding queued work into itself (a repeated raise before the frame
/// drains) never escalates it.
pub proof fn lemma_merge_idempotent(w: WorkModel)
    requires
        work_wf(w),
    ensures
        spec_work_merge(w, w) == w,
{
    match w.content {
        ContentModel::Rows { sheet, spans } => {
            lemma_covered_concat(spans, spans);
            assert(covered(spans + spans) =~= covered(spans));
            lemma_normalize_of_canonical(sheet, spans + spans, spans);
        },
        ContentModel::Panes(m) => {
            lemma_mask_union_laws(m, m, m);
        },
        ContentModel::Clean => {},
    }
}

/// Two independent raises combine to the same value whichever the
/// scheduler observes first.
pub proof fn lemma_merge_commutative(a: WorkModel, b: WorkModel)
    ensures
        spec_work_merge(a, b) == spec_work_merge(b, a),
{
    match (a.content, b.content) {
        (ContentModel::Rows { sheet: s1, spans: x }, ContentModel::Rows { sheet: s2, spans: y }) => {
            if s1 == s2 {
                lemma_covered_concat(x, y);
                lemma_covered_concat(y, x);
                assert(covered(x + y) =~= covered(y + x));
                lemma_normalize_rows_facts(s1, x + y, y + x);
            }
        },
        (ContentModel::Panes(m), ContentModel::Panes(n)) => {
            lemma_mask_union_laws(m, n, n);
        },
        _ => {},
    }
}

/// Grouping does not matter when folding three raises together, except
/// where two row-work values on one sheet merge past the band cap
/// (degrading to all panes) only under one of the two groupings while the
/// three-way merge stays row-precise.
pub proof fn lemma_merge_associative(a: WorkModel, b: WorkModel, c: WorkModel)
    requires
        !assoc_counterexample(a.content, b.content, c.content),
    ensures
        spec_work_merge(spec_work_merge(a, b), c) == spec_work_merge(a, spec_work_merge(b, c)),
{
    lemma_content_associative(a.content, b.content, c.content);
}

proof fn lemma_content_associative(a: ContentModel, b: ContentModel, c: ContentModel)
    requires
        !assoc_counterexample(a, b, c),
    ensures
        spec_content_merge(spec_content_merge(a, b), c) == spec_content_merge(a, spec_content_merge(b, c)),
{
    match (a, b, c) {
        (
            ContentModel::Rows { sheet: s1, spans: x },
            ContentModel::Rows { sheet: s2, spans: y },
            ContentModel::Rows { sheet: s3, spans: z },
        ) => {
            if s1 == s2 && s2 == s3 {
                lemma_normalize_rows_facts(s1, x + y, x + y);
                lemma_normalize_rows_facts(s1, y + z, y + z);
                lemma_covered_concat(x, y);
                lemma_covered_concat(y, z);
                lemma_covered_concat(x + y, z);
                lemma_covered_concat(x, y + z);
                assert(x + y + z =~= x + (y + z));
                match (spec_normalize_rows(s1, x + y), spec_normalize_rows(s1, y + z)) {
                    (ContentModel::Rows { sheet: _, spans: m }, ContentModel::Rows { sheet: _, spans: n }) => {
                        lemma_covered_concat(m, z);
                        lemma_covered_concat(x, n);
                        assert(covered(m + z) =~= covered(x + n));
                        lemma_normalize_rows_facts(s1, m + z, x + n);
                    },
                    (ContentModel::Rows { sheet: _, spans: m }, _) => {
                        lemma_covered_concat(m, z);
                        assert(covered(m + z) =~= covered(x + y + z));
                        lemma_normalize_rows_facts(s1, m + z, x + y + z);
                        lemma_normalize_rows_facts(s1, x + y + z, x + y + z);
                    },
                    (_, ContentModel::Rows { sheet: _, spans: n }) => {
                        lemma_covered_concat(x, n);
                        assert(covered(x + n) =~= covered(x + y + z));
                        lemma_normalize_rows_facts(s1, x + n, x + y + z);
                        lemma_normalize_rows_facts(s1, x + y + z, x + y + z);
                    },
                    _ => {},
                }
            } else if s1 == s2 {
                lemma_normalize_rows_facts(s1, x + y, x + y);
            } else if s2 == s3 {
                lemma_normalize_rows_facts(s2, y + z, y + z);
            }
        },
        (ContentModel::Panes(m), ContentModel::Panes(n), ContentModel::Panes(k)) => {
            lemma_mask_union_laws(m, n, k);
        },
        _ => {
            lemma_content_all_absorbs(a, b, c);
        },
    }
}

/// Remaining shapes: a clean operand reduces to a two-way merge, and any
/// mix of row and pane work ends at all panes under both groupings.
proof fn lemma_content_all_absorbs(a: ContentModel, b: ContentModel, c: ContentModel)
    requires
        !(a is Rows && b is Rows && c is Rows),
        !(a is Panes && b is Panes && c is Panes),
    ensures
        spec_content_merge(spec_content_merge(a, b), c) == spec_content_merge(a, spec_content_merge(b, c)),
{
    lemma_mask_union_laws(PaneRegionMask::All, PaneRegionMask::All, PaneRegionMask::All);
    match a {
        ContentModel::Panes(m) => {
            lemma_mask_union_laws(m, m, m);
        },
        _ => {},
    }
    match b {
        ContentModel::Panes(m) => {
            lemma_mask_union_laws(m, m, m);
        },
        ContentModel::Rows { sheet, spans } => {
            match c {
                ContentModel::Rows { sheet: s3, spans: z } => {
                    lemma_normalize_rows_facts(sheet, spans + z, spans + z);
                },
                _ => {},
            }
            match a {
                ContentModel::Rows { sheet: s1, spans: x } => {
                    lemma_normalize_rows_facts(s1, x + spans, x + spans);
                },
                _ => {},
            }
        },
        _ => {},
    }
    match c {
        ContentModel::Panes(m) => {
            lemma_mask_union_laws(m, m, m);
        },
        _ => {},
    }
    match (a, b) {
        (ContentModel::Panes(m), ContentModel::Panes(n)) => {
            lemma_mask_union_laws(m, n, n);
            lemma_mask_union_laws(
                crate::chrome::mask::mask_of_bits(mask_bits(m) | mask_bits(n)),
                n,
                n,
            );
        },
        _ => {},
    }
    match (b, c) {
        (ContentModel::Panes(m), ContentModel::Panes(n)) => {
            lemma_mask_union_laws(m, n, n);
            lemma_mask_union_laws(
                crate::chrome::mask::mask_of_bits(mask_bits(m) | mask_bits(n)),
                n,
                n,
            );
        },
        _ => {},
    }
}

} // verus!
