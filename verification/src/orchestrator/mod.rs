//! Paint-attempt bookkeeping and viewport queries that sit above the frame
//! geometry.

pub mod finish;
pub mod query;

pub use finish::{HoldReason, retry_grid_wide};
pub use query::{origin_showing, origin_showing_infallible};
