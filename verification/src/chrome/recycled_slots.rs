//! Slot-Vec recycler: carries the outgoing frame's allocations forward so
//! steady-state rebuilds only allocate when the row/column count outgrows
//! capacity.

use vstd::prelude::*;

use crate::chrome::pane_set::PaneSet;
use crate::geometry::slot::{ColSlot, RowSlot};

verus! {

/// Four drained slot Vecs, kept for their heap capacity.
#[derive(Default)]
pub struct RecycledSlots {
    pub frozen_rows: Vec<RowSlot>,
    pub scroll_rows: Vec<RowSlot>,
    pub frozen_cols: Vec<ColSlot>,
    pub scroll_cols: Vec<ColSlot>,
}

impl RecycledSlots {
    /// Drain `pane_set`'s four slot Vecs (cleared, keeping their heap
    /// capacity) into a fresh recycling pool.
    pub fn from_pane_set(pane_set: PaneSet) -> (r: Self)
        ensures
            r.frozen_rows@.len() == 0,
            r.scroll_rows@.len() == 0,
            r.frozen_cols@.len() == 0,
            r.scroll_cols@.len() == 0,
    {
        let PaneSet { rows, cols, .. } = pane_set;
        let mut frozen_rows = rows.frozen;
        let mut scroll_rows = rows.scroll;
        let mut frozen_cols = cols.frozen;
        let mut scroll_cols = cols.scroll;
        frozen_rows.clear();
        scroll_rows.clear();
        frozen_cols.clear();
        scroll_cols.clear();
        Self { frozen_rows, scroll_rows, frozen_cols, scroll_cols }
    }
}

} // verus!
