//! A small 2D pixel-grid display core: a color grid with bounds-checked
//! access and a dirty flag, an encoder that mirrors the grid into a flat
//! RGBA byte surface only when the grid has changed, and a cursor-anchored
//! camera zoom/pan controller.
//!
//! All coordinates and color channels are fixed-point integers; the host
//! that feeds input events and displays the surface converts at the edge.

pub mod color;
pub mod grid;
pub mod sync;
pub mod camera;
