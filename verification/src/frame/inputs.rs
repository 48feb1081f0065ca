//! Frame-level input capture: the scalar reads a paint attempt needs, and
//! the failures that hold an attempt.

use vstd::prelude::*;

use crate::geometry::constants::{LAST_COLUMN, LAST_ROW};
use crate::model::CanvasView;

verus! {

/// Which scalar input a failed capture could not accept: an accessor read
/// failed, or a frozen count was out of range. Named per accessor so a held
/// frame's diagnostics can say which input regressed.
///
/// Each variant has a fixed wire code ([`FrameInputFailure::code`]) that a
/// recording stores; the codes are append-only and follow the capture's
/// read order, which is why they are not in ascending declaration order.
#[derive(Clone, Copy, Debug, PartialEq, Eq, Structural)]
pub enum FrameInputFailure {
    SelectedSheet,
    SelectedView,
    /// The selected-sheet read and the view's sheet disagreed.
    SheetMismatch,
    /// The frozen-row-count read itself failed.
    FrozenRows,
    /// The frozen-column-count read itself failed.
    FrozenColumns,
    /// The frozen-row count was outside `0..=LAST_ROW`.
    InvalidFrozenRowCount,
    /// The frozen-column count was outside `0..=LAST_COLUMN`.
    InvalidFrozenColumnCount,
    RowHeaderVisibility,
    ColumnHeaderVisibility,
}

/// Wire code of `f`.
pub open spec fn failure_code(f: FrameInputFailure) -> u8 {
    match f {
        FrameInputFailure::SelectedSheet => 0,
        FrameInputFailure::SelectedView => 1,
        FrameInputFailure::SheetMismatch => 2,
        FrameInputFailure::FrozenRows => 3,
        FrameInputFailure::FrozenColumns => 4,
        FrameInputFailure::InvalidFrozenRowCount => 7,
        FrameInputFailure::InvalidFrozenColumnCount => 8,
        FrameInputFailure::RowHeaderVisibility => 5,
        FrameInputFailure::ColumnHeaderVisibility => 6,
    }
}

impl FrameInputFailure {
    /// Highest wire code. The variants carry every code in
    /// `0..=LAST_CODE`, so `code > LAST_CODE` is exactly "no variant".
    pub const LAST_CODE: u8 = 8;

    /// The wire code a recording stores for this failure.
    pub fn code(self) -> (c: u8)
        ensures
            c == failure_code(self),
            c <= Self::LAST_CODE,
    {
        match self {
            FrameInputFailure::SelectedSheet => 0,
            FrameInputFailure::SelectedView => 1,
            FrameInputFailure::SheetMismatch => 2,
            FrameInputFailure::FrozenRows => 3,
            FrameInputFailure::FrozenColumns => 4,
            FrameInputFailure::InvalidFrozenRowCount => 7,
            FrameInputFailure::InvalidFrozenColumnCount => 8,
            FrameInputFailure::RowHeaderVisibility => 5,
            FrameInputFailure::ColumnHeaderVisibility => 6,
        }
    }

    /// The failure a decoded wire code names, if any.
    pub fn from_code(code: u8) -> (f: Option<Self>)
        ensures
            match f {
                Some(x) => failure_code(x) == code,
                None => code > Self::LAST_CODE,
            },
    {
        match code {
            0 => Some(FrameInputFailure::SelectedSheet),
            1 => Some(FrameInputFailure::SelectedView),
            2 => Some(FrameInputFailure::SheetMismatch),
            3 => Some(FrameInputFailure::FrozenRows),
            4 => Some(FrameInputFailure::FrozenColumns),
            5 => Some(FrameInputFailure::RowHeaderVisibility),
            6 => Some(FrameInputFailure::ColumnHeaderVisibility),
            7 => Some(FrameInputFailure::InvalidFrozenRowCount),
            8 => Some(FrameInputFailure::InvalidFrozenColumnCount),
            _ => None,
        }
    }
}

/// Validated count of frozen leading rows or columns along one axis:
/// `0 <= count <= axis_last_id`. A negative count would become an enormous
/// capacity request and an over-limit count would walk ids the sheet cannot
/// contain, so this is the one checked path into the geometry.
#[derive(Clone, Copy, Debug, PartialEq, Eq)]
pub struct FrozenCount {
    count: i32,
}

impl FrozenCount {
    /// The validated count.
    pub closed spec fn value(self) -> i32 {
        self.count
    }

    /// `Ok` only when `count` lies in `0..=axis_last_id`; `Err(out_of_range)`
    /// otherwise.
    pub fn checked(count: i32, axis_last_id: i32, out_of_range: FrameInputFailure) -> (r: Result<
        Self,
        FrameInputFailure,
    >)
        ensures
            match r {
                Ok(f) => 0 <= count <= axis_last_id && f.value() == count,
                Err(e) => !(0 <= count <= axis_last_id) && e == out_of_range,
            },
    {
        if 0 <= count && count <= axis_last_id {
            Ok(Self { count })
        } else {
            Err(out_of_range)
        }
    }

    /// The validated raw count for the geometry walks.
    pub fn get(self) -> (n: i32)
        ensures
            n == self.value(),
    {
        self.count
    }
}

/// The scalar model reads a paint attempt makes, in read order: selected
/// sheet, selected view, frozen row and column counts, row- and
/// column-header visibility, selection visibility. `None` is a transient
/// bridge failure; selection visibility cannot fail.
#[derive(Debug, Clone, Copy)]
pub struct InputReads {
    pub sheet: Option<u32>,
    pub view: Option<CanvasView>,
    pub frozen_rows: Option<i32>,
    pub frozen_cols: Option<i32>,
    pub show_row_headers: Option<bool>,
    pub show_col_headers: Option<bool>,
    pub show_selection: bool,
}

/// The first read, in read order, that a capture cannot accept: a failed
/// read, a view whose sheet disagrees with the selected sheet, or a frozen
/// count outside `0..=LAST_ROW` / `0..=LAST_COLUMN`.
pub open spec fn first_input_failure(reads: InputReads) -> Option<FrameInputFailure> {
    if reads.sheet is None {
        Some(FrameInputFailure::SelectedSheet)
    } else if reads.view is None {
        Some(FrameInputFailure::SelectedView)
    } else if reads.view->0.sheet != reads.sheet->0 {
        Some(FrameInputFailure::SheetMismatch)
    } else if reads.frozen_rows is None {
        Some(FrameInputFailure::FrozenRows)
    } else if !(0 <= reads.frozen_rows->0 <= LAST_ROW) {
        Some(FrameInputFailure::InvalidFrozenRowCount)
    } else if reads.frozen_cols is None {
        Some(FrameInputFailure::FrozenColumns)
    } else if !(0 <= reads.frozen_cols->0 <= LAST_COLUMN) {
        Some(FrameInputFailure::InvalidFrozenColumnCount)
    } else if reads.show_row_headers is None {
        Some(FrameInputFailure::RowHeaderVisibility)
    } else if reads.show_col_headers is None {
        Some(FrameInputFailure::ColumnHeaderVisibility)
    } else {
        None
    }
}

/// What a [`FrameInputs`] holds.
pub struct InputsModel {
    pub logical_width: i32,
    pub logical_height: i32,
    pub model_generation: u64,
    pub sheet: u32,
    pub view: CanvasView,
    pub frozen_rows: i32,
    pub frozen_cols: i32,
    pub show_row_headers: bool,
    pub show_col_headers: bool,
    pub show_selection: bool,
}

/// Immutable, once-per-attempt snapshot of the scalar model and geometry
/// inputs a frame needs. The only constructor is [`FrameInputs::capture`],
/// which enforces the read order, the frozen-count range checks and the
/// sheet/view consistency check, so no internally inconsistent snapshot
/// (a view from one sheet paired with another's frozen counts) exists.
#[derive(Debug, Clone, Copy)]
pub struct FrameInputs {
    /// Logical canvas extent, in whole CSS pixels, for this attempt.
    logical_width: i32,
    logical_height: i32,
    model_generation: u64,
    sheet: u32,
    view: CanvasView,
    frozen_rows: FrozenCount,
    frozen_cols: FrozenCount,
    show_row_headers: bool,
    show_col_headers: bool,
    show_selection: bool,
}

impl FrameInputs {
    /// What this snapshot holds.
    pub closed spec fn snapshot(&self) -> InputsModel {
        InputsModel {
            logical_width: self.logical_width,
            logical_height: self.logical_height,
            model_generation: self.model_generation,
            sheet: self.sheet,
            view: self.view,
            frozen_rows: self.frozen_rows.value(),
            frozen_cols: self.frozen_cols.value(),
            show_row_headers: self.show_row_headers,
            show_col_headers: self.show_col_headers,
            show_selection: self.show_selection,
        }
    }
}

impl FrameInputs {
    /// The frozen counts lie in their axes' ranges and the view belongs to
    /// the selected sheet.
    #[verifier::type_invariant]
    pub closed spec fn wf(&self) -> bool {
        &&& 0 <= self.frozen_rows.value() <= LAST_ROW
        &&& 0 <= self.frozen_cols.value() <= LAST_COLUMN
        &&& self.view.sheet == self.sheet
    }

    /// Capture every scalar frame input from `reads`, in read order: any
    /// one failure holds the whole attempt, reported as the first failure
    /// in read order; there is no partial snapshot and no default
    /// substituted for a failed read. The logical extent and model
    /// generation are the caller's own state, not model reads.
    pub fn capture(reads: InputReads, logical_width: i32, logical_height: i32, model_generation: u64) -> (r: Result<
        FrameInputs,
        FrameInputFailure,
    >)
        ensures
            match first_input_failure(reads) {
                Some(f) => r == Err::<FrameInputs, FrameInputFailure>(f),
                None => r matches Ok(fi) && fi.snapshot() == (InputsModel {
                    logical_width,
                    logical_height,
                    model_generation,
                    sheet: reads.sheet->0,
                    view: reads.view->0,
                    frozen_rows: reads.frozen_rows->0,
                    frozen_cols: reads.frozen_cols->0,
                    show_row_headers: reads.show_row_headers->0,
                    show_col_headers: reads.show_col_headers->0,
                    show_selection: reads.show_selection,
                }),
            },
    {
        let sheet = match reads.sheet {
            Some(s) => s,
            None => {
                return Err(FrameInputFailure::SelectedSheet);
            },
        };
        let view = match reads.view {
            Some(v) => v,
            None => {
                return Err(FrameInputFailure::SelectedView);
            },
        };
        if view.sheet != sheet {
            return Err(FrameInputFailure::SheetMismatch);
        }
        let frozen_rows = match reads.frozen_rows {
            Some(n) => match FrozenCount::checked(n, LAST_ROW, FrameInputFailure::InvalidFrozenRowCount) {
                Ok(c) => c,
                Err(e) => {
                    return Err(e);
                },
            },
            None => {
                return Err(FrameInputFailure::FrozenRows);
            },
        };
        let frozen_cols = match reads.frozen_cols {
            Some(n) => match FrozenCount::checked(n, LAST_COLUMN, FrameInputFailure::InvalidFrozenColumnCount) {
                Ok(c) => c,
                Err(e) => {
                    return Err(e);
                },
            },
            None => {
                return Err(FrameInputFailure::FrozenColumns);
            },
        };
        let show_row_headers = match reads.show_row_headers {
            Some(b) => b,
            None => {
                return Err(FrameInputFailure::RowHeaderVisibility);
            },
        };
        let show_col_headers = match reads.show_col_headers {
            Some(b) => b,
            None => {
                return Err(FrameInputFailure::ColumnHeaderVisibility);
            },
        };
        Ok(FrameInputs {
            logical_width,
            logical_height,
            model_generation,
            sheet,
            view,
            frozen_rows,
            frozen_cols,
            show_row_headers,
            show_col_headers,
            show_selection: reads.show_selection,
        })
    }

    /// Logical canvas extent `(width, height)` for this attempt.
    pub fn logical_extent(&self) -> (r: (i32, i32))
        ensures
            r == (self.snapshot().logical_width, self.snapshot().logical_height),
    {
        (self.logical_width, self.logical_height)
    }

    pub fn sheet(&self) -> (r: u32)
        ensures
            r == self.snapshot().sheet,
    {
        self.sheet
    }

    pub fn view(&self) -> (r: CanvasView)
        ensures
            r == self.snapshot().view,
    {
        self.view
    }

    pub fn frozen_rows(&self) -> (r: i32)
        ensures
            r == self.snapshot().frozen_rows,
    {
        self.frozen_rows.get()
    }

    pub fn frozen_cols(&self) -> (r: i32)
        ensures
            r == self.snapshot().frozen_cols,
    {
        self.frozen_cols.get()
    }

    pub fn show_row_headers(&self) -> (r: bool)
        ensures
            r == self.snapshot().show_row_headers,
    {
        self.show_row_headers
    }

    pub fn show_col_headers(&self) -> (r: bool)
        ensures
            r == self.snapshot().show_col_headers,
    {
        self.show_col_headers
    }

    pub fn show_selection(&self) -> (r: bool)
        ensures
            r == self.snapshot().show_selection,
    {
        self.show_selection
    }

    pub fn model_generation(&self) -> (r: u64)
        ensures
            r == self.snapshot().model_generation,
    {
        self.model_generation
    }

    /// The capture's range checks hold of every snapshot.
    pub proof fn lemma_wf(&self)
        requires
            self.wf(),
        ensures
            0 <= self.snapshot().frozen_rows <= LAST_ROW,
            0 <= self.snapshot().frozen_cols <= LAST_COLUMN,
            self.snapshot().view.sheet == self.snapshot().sheet,
    {
    }
}

/// Wire codes identify failures: no two failures share a code, and every
/// code up to [`FrameInputFailure::LAST_CODE`] names one.
pub proof fn lemma_failure_codes_are_a_bijection(a: FrameInputFailure, b: FrameInputFailure, code: u8)
    ensures
        failure_code(a) == failure_code(b) ==> a == b,
        failure_code(a) <= FrameInputFailure::LAST_CODE,
        code <= FrameInputFailure::LAST_CODE ==> exists|f: FrameInputFailure| #[trigger] failure_code(f) == code,
{
    if code <= 8 {
        if code == 0 {
            assert(failure_code(FrameInputFailure::SelectedSheet) == code);
        } else if code == 1 {
            assert(failure_code(FrameInputFailure::SelectedView) == code);
        } else if code == 2 {
            assert(failure_code(FrameInputFailure::SheetMismatch) == code);
        } else if code == 3 {
            assert(failure_code(FrameInputFailure::FrozenRows) == code);
        } else if code == 4 {
            assert(failure_code(FrameInputFailure::FrozenColumns) == code);
        } else if code == 5 {
            assert(failure_code(FrameInputFailure::RowHeaderVisibility) == code);
        } else if code == 6 {
            assert(failure_code(FrameInputFailure::ColumnHeaderVisibility) == code);
        } else if code == 7 {
            assert(failure_code(FrameInputFailure::InvalidFrozenRowCount) == code);
        } else {
            assert(failure_code(FrameInputFailure::InvalidFrozenColumnCount) == code);
        }
    }
}

} // verus!
