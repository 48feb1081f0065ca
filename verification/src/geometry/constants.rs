//! Layout constants, in logical (CSS) pixels or cell indices.

use vstd::prelude::*;

verus! {

pub const SELECTION_BORDER_WIDTH: i32 = 2;
pub const STANDARD_BORDER_WIDTH: i32 = 1;
pub const MEDIUM_BORDER_WIDTH: i32 = 2;
pub const THICK_BORDER_WIDTH: i32 = 3;
pub const DASHED_BORDER_WIDTH: i32 = 2;

/// Width of the line separating a header strip from the cell area. Header
/// strips fill `[0, thickness)`, this line occupies the next pixel, and the
/// cell area begins one separator-width past the thickness.
pub const HEADER_SEPARATOR_WIDTH: i32 = 1;

/// Height of the column-header strip. Static: the strip never resizes to
/// fit content.
pub const HEADER_ROW_HEIGHT: i32 = 28;

/// Minimum width of the row-header strip. `measure_row_header_width` floors
/// the row-header thickness at this value.
pub const HEADER_COL_WIDTH: i32 = 30;

/// Frozen-pane separator thickness: both the stroke width of the separator
/// and the gap reserved between the frozen and scrolling pane bands.
pub const FROZEN_SEP: i32 = 3;

/// Offset from a header strip's outer edge to the cell area origin: exactly
/// the separator line's width.
pub const CELL_AREA_INSET: i32 = 1;

/// Side length of the autofill handle square.
pub const AUTOFILL_HANDLE_PX: i32 = 6;

/// Width of the contrasting outline ring stroked around the handle.
pub const AUTOFILL_HANDLE_BORDER_PX: i32 = 1;

/// Padding added on every side of the handle when hit-testing, so the
/// click target is larger than the painted square.
pub const AUTOFILL_HIT_PAD_PX: i32 = 2;

/// Inward tolerance for classifying a formula-ref hit as an edge or corner.
pub const REF_HANDLE_HIT_PAD_PX: i32 = 8;

/// Fallback row height, in whole pixels, when the model has no override for
/// a row.
pub const DEFAULT_ROW_HEIGHT_PX: i32 = 21;

/// Fallback column width, in whole pixels, when the model has no override
/// for a column.
pub const DEFAULT_COL_WIDTH_PX: i32 = 64;

/// Maximum row index (Excel/OOXML limit).
pub const LAST_ROW: i32 = 1048576;

/// Maximum column index (Excel/OOXML limit).
pub const LAST_COLUMN: i32 = 16384;

} // verus!
