//! Pixel- and cell-space primitives.
//!
//! Every visible artifact composes from [`pixel_rect::PixelRect`] and
//! [`prim::Line`]. The cell-address <-> pixel mapping lives in [`slot`];
//! layout values in [`constants`].

pub mod constants;
pub mod pixel_rect;
pub mod prim;
pub mod slot;
