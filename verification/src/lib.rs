//! Verified core of a Mandelbrot set explorer: palettes, redraw decisions,
//! reference-orbit bookkeeping, scene state, pointer dragging and the
//! navigation panel's jump-to state.

pub mod action;
pub mod fractal;
pub mod input;
pub mod render;
pub mod routing;
pub mod scene;
pub mod ui;
